//! Why a file is kept: the retention reasons, the set of reasons of one file, and the
//! reasons of every file of a listing.
use vstd::prelude::*;
use vstd::string::StringExecFns;

use std::collections::HashSet;

verus! {

broadcast use vstd::std_specs::hash::group_hash_axioms;

/// Reason why a file was kept by the retention policy.
#[derive(Debug, Clone, Copy, PartialEq, Eq, Hash, Structural)]
pub enum RetentionReason {
    /// Kept as one of the last N files
    KeepLast,
    /// Kept as the representative for an hour
    Hourly,
    /// Kept as the representative for a day
    Daily,
    /// Kept as the representative for a week
    Weekly,
    /// Kept as the representative for a month
    Monthly,
    /// Kept as the representative for a year
    Yearly,
}

/// The label under which a reason is shown.
pub open spec fn reason_label(r: RetentionReason) -> Seq<char> {
    match r {
        RetentionReason::KeepLast => "keep-last"@,
        RetentionReason::Hourly => "hourly"@,
        RetentionReason::Daily => "daily"@,
        RetentionReason::Weekly => "weekly"@,
        RetentionReason::Monthly => "monthly"@,
        RetentionReason::Yearly => "yearly"@,
    }
}

impl RetentionReason {
    /// The label under which the reason is shown, such as `keep-last` or `daily`.
    pub fn as_str(&self) -> (r: &'static str)
        ensures
            r@ == reason_label(*self),
    {
        match self {
            RetentionReason::KeepLast => "keep-last",
            RetentionReason::Hourly => "hourly",
            RetentionReason::Daily => "daily",
            RetentionReason::Weekly => "weekly",
            RetentionReason::Monthly => "monthly",
            RetentionReason::Yearly => "yearly",
        }
    }
}

/// The reasons in the order in which they are applied and shown.
pub open spec fn reason_order() -> Seq<RetentionReason> {
    seq![
        RetentionReason::KeepLast,
        RetentionReason::Hourly,
        RetentionReason::Daily,
        RetentionReason::Weekly,
        RetentionReason::Monthly,
        RetentionReason::Yearly,
    ]
}

/// Whether a set of reasons holds at least one reason.
pub open spec fn has_any_reason(s: Set<RetentionReason>) -> bool {
    ||| s.contains(RetentionReason::KeepLast)
    ||| s.contains(RetentionReason::Hourly)
    ||| s.contains(RetentionReason::Daily)
    ||| s.contains(RetentionReason::Weekly)
    ||| s.contains(RetentionReason::Monthly)
    ||| s.contains(RetentionReason::Yearly)
}

/// The set of reasons for which one file is kept.
#[derive(Debug, Clone, Copy, PartialEq, Eq, Structural)]
pub struct ReasonSet {
    keep_last: bool,
    hourly: bool,
    daily: bool,
    weekly: bool,
    monthly: bool,
    yearly: bool,
}

impl View for ReasonSet {
    type V = Set<RetentionReason>;

    closed spec fn view(&self) -> Set<RetentionReason> {
        Set::new(|r: RetentionReason| self.flag(r))
    }
}

impl ReasonSet {
    closed spec fn flag(self, r: RetentionReason) -> bool {
        match r {
            RetentionReason::KeepLast => self.keep_last,
            RetentionReason::Hourly => self.hourly,
            RetentionReason::Daily => self.daily,
            RetentionReason::Weekly => self.weekly,
            RetentionReason::Monthly => self.monthly,
            RetentionReason::Yearly => self.yearly,
        }
    }

    /// The empty set of reasons.
    pub fn new() -> (r: ReasonSet)
        ensures
            r@ == Set::<RetentionReason>::empty(),
    {
        let r = ReasonSet {
            keep_last: false,
            hourly: false,
            daily: false,
            weekly: false,
            monthly: false,
            yearly: false,
        };
        assert(r@ =~= Set::<RetentionReason>::empty());
        r
    }

    /// Whether `reason` is in the set.
    pub fn contains(&self, reason: &RetentionReason) -> (r: bool)
        ensures
            r == self@.contains(*reason),
    {
        match reason {
            RetentionReason::KeepLast => self.keep_last,
            RetentionReason::Hourly => self.hourly,
            RetentionReason::Daily => self.daily,
            RetentionReason::Weekly => self.weekly,
            RetentionReason::Monthly => self.monthly,
            RetentionReason::Yearly => self.yearly,
        }
    }

    /// Adds `reason` to the set.
    pub fn insert(&mut self, reason: RetentionReason)
        ensures
            final(self)@ == old(self)@.insert(reason),
    {
        match reason {
            RetentionReason::KeepLast => self.keep_last = true,
            RetentionReason::Hourly => self.hourly = true,
            RetentionReason::Daily => self.daily = true,
            RetentionReason::Weekly => self.weekly = true,
            RetentionReason::Monthly => self.monthly = true,
            RetentionReason::Yearly => self.yearly = true,
        }
        assert(self@ =~= old(self)@.insert(reason));
    }

    /// Whether the set holds no reason.
    pub fn is_empty(&self) -> (r: bool)
        ensures
            r == !has_any_reason(self@),
    {
        !(self.keep_last || self.hourly || self.daily || self.weekly || self.monthly || self.yearly)
    }

    /// The reasons of the set, in the order of `reason_order`.
    pub fn to_vec(&self) -> (r: Vec<RetentionReason>)
        ensures
            r@ == reason_order().filter(|x: RetentionReason| self@.contains(x)),
    {
        let ghost set = self@;
        let ghost pred = |x: RetentionReason| set.contains(x);
        let mut r: Vec<RetentionReason> = Vec::new();
        let all: [RetentionReason; 6] = [
            RetentionReason::KeepLast,
            RetentionReason::Hourly,
            RetentionReason::Daily,
            RetentionReason::Weekly,
            RetentionReason::Monthly,
            RetentionReason::Yearly,
        ];
        assert(all@ =~= reason_order());
        let mut i: usize = 0;
        while i < 6
            invariant
                0 <= i <= 6,
                all@ == reason_order(),
                set == self@,
                pred == (|x: RetentionReason| set.contains(x)),
                r@ == reason_order().take(i as int).filter(pred),
            decreases 6 - i,
        {
            let x = all[i];
            proof {
                reveal_with_fuel(Seq::<_>::filter, 1);
                assert(reason_order().take(i + 1).drop_last() =~= reason_order().take(i as int));
            }
            if self.contains(&x) {
                r.push(x);
            }
            i = i + 1;
        }
        assert(reason_order().take(6) =~= reason_order());
        r
    }
}

/// The labels of `rs`, separated by `, `.
pub open spec fn joined_labels(rs: Seq<RetentionReason>) -> Seq<char>
    decreases rs.len(),
{
    if rs.len() == 0 {
        Seq::empty()
    } else if rs.len() == 1 {
        reason_label(rs[0])
    } else {
        joined_labels(rs.drop_last()) + ", "@ + reason_label(rs.last())
    }
}

impl ReasonSet {
    /// The labels of the reasons, in the order of `reason_order`, separated by `, `.
    pub fn describe(&self) -> (r: String)
        ensures
            r@ == joined_labels(reason_order().filter(|x: RetentionReason| self@.contains(x))),
    {
        let rs = self.to_vec();
        let mut out: String = String::new();
        let mut i: usize = 0;
        while i < rs.len()
            invariant
                i <= rs@.len(),
                out@ == joined_labels(rs@.take(i as int)),
            decreases rs@.len() - i,
        {
            proof {
                assert(rs@.take(i + 1).drop_last() =~= rs@.take(i as int));
            }
            if i > 0 {
                out.append(", ");
            }
            out.append(rs[i].as_str());
            i = i + 1;
        }
        assert(rs@.take(rs@.len() as int) =~= rs@);
        out
    }
}

/// The reasons for which each file of a listing is kept, by position in the listing.
/// A file with no reason is not kept.
pub struct KeepReasons {
    per_file: Vec<ReasonSet>,
}

/// The positions that hold at least one reason.
pub open spec fn kept_positions(reasons: Seq<Set<RetentionReason>>) -> Set<usize> {
    Set::new(|i: usize| i < reasons.len() && has_any_reason(reasons[i as int]))
}

impl View for KeepReasons {
    type V = Seq<Set<RetentionReason>>;

    closed spec fn view(&self) -> Seq<Set<RetentionReason>> {
        self.per_file@.map_values(|s: ReasonSet| s@)
    }
}

impl KeepReasons {
    /// No reason for any of `n` files.
    pub fn empty(n: usize) -> (r: KeepReasons)
        ensures
            r@ == Seq::new(n as nat, |i: int| Set::<RetentionReason>::empty()),
    {
        let mut per_file: Vec<ReasonSet> = Vec::new();
        let mut i: usize = 0;
        while i < n
            invariant
                i <= n,
                per_file@.len() == i,
                forall|j: int| 0 <= j < i ==> #[trigger] per_file@[j]@ == Set::<RetentionReason>::empty(),
            decreases n - i,
        {
            per_file.push(ReasonSet::new());
            i = i + 1;
        }
        let r = KeepReasons { per_file };
        assert(r@ =~= Seq::new(n as nat, |i: int| Set::<RetentionReason>::empty()));
        r
    }

    /// Number of files the reasons speak of.
    pub fn num_files(&self) -> (r: usize)
        ensures
            r == self@.len(),
    {
        self.per_file.len()
    }

    /// Adds `reason` to the reasons of the file at position `i`.
    pub fn add(&mut self, i: usize, reason: RetentionReason)
        requires
            i < old(self)@.len(),
        ensures
            final(self)@ == old(self)@.update(i as int, old(self)@[i as int].insert(reason)),
    {
        let mut s = self.per_file[i];
        s.insert(reason);
        self.per_file.set(i, s);
        assert(self@ =~= old(self)@.update(i as int, old(self)@[i as int].insert(reason)));
    }

    /// The reasons of the file at position `i`, if it is kept.
    pub fn get(&self, i: &usize) -> (r: Option<&ReasonSet>)
        ensures
            r is Some <==> kept_positions(self@).contains(*i),
            r matches Some(s) ==> s@ == self@[*i as int],
    {
        if *i < self.per_file.len() && !self.per_file[*i].is_empty() {
            Some(&self.per_file[*i])
        } else {
            None
        }
    }

    /// Whether the file at position `i` is kept.
    pub fn contains_key(&self, i: &usize) -> (r: bool)
        ensures
            r == kept_positions(self@).contains(*i),
    {
        *i < self.per_file.len() && !self.per_file[*i].is_empty()
    }

    /// The positions of the kept files.
    pub fn keys(&self) -> (r: HashSet<usize>)
        ensures
            r@ == kept_positions(self@),
    {
        let mut r: HashSet<usize> = HashSet::new();
        let n: usize = self.per_file.len();
        let mut i: usize = 0;
        while i < n
            invariant
                i <= n,
                n == self@.len(),
                r@ == Set::new(|j: usize| j < i && has_any_reason(self@[j as int])),
            decreases n - i,
        {
            if !self.per_file[i].is_empty() {
                r.insert(i);
            }
            proof {
                assert(r@ =~= Set::new(|j: usize| j < i + 1 && has_any_reason(self@[j as int])));
            }
            i = i + 1;
        }
        assert(r@ =~= kept_positions(self@));
        r
    }

    /// Number of kept files.
    pub fn len(&self) -> (r: usize)
        ensures
            r == kept_positions(self@).len(),
    {
        self.keys().len()
    }

    /// Whether no file is kept.
    pub fn is_empty(&self) -> (r: bool)
        ensures
            r == kept_positions(self@).is_empty(),
    {
        self.keys().is_empty()
    }
}

} // verus!
