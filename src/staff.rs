use vstd::prelude::*;

verus! {

/// A person credited on AniList, with the free-text role given there.
#[derive(Debug)]
pub struct StaffCredit {
    pub name: String,
    pub role: String,
}

/// The text under which a credit is offered: "name - role".
pub open spec fn staff_label_of(name: Seq<char>, role: Seq<char>) -> Seq<char> {
    name + " - "@ + role
}

impl StaffCredit {
    /// The option text shown to the operator for this credit.
    pub fn label(&self) -> (r: String)
        ensures
            r@ == staff_label_of(self.name@, self.role@),
    {
        let mut s = self.name.clone();
        s.append(" - ");
        s.append(self.role.as_str());
        s
    }
}

/// The option texts for a list of credits, in list order.
pub fn staff_labels(credits: &Vec<StaffCredit>) -> (r: Vec<String>)
    ensures
        r.len() == credits.len(),
        forall|i: int|
            0 <= i < r.len() ==> #[trigger] r[i]@ == staff_label_of(credits[i].name@, credits[i].role@),
{
    let mut out: Vec<String> = Vec::new();
    let mut i: usize = 0;
    while i < credits.len()
        invariant
            i <= credits.len(),
            out.len() == i,
            forall|j: int|
                0 <= j < i ==> #[trigger] out[j]@ == staff_label_of(
                    credits[j].name@,
                    credits[j].role@,
                ),
        decreases credits.len() - i,
    {
        out.push(credits[i].label());
        i = i + 1;
    }
    out
}

/// The name picked for a role: the chosen credit's name, or `None` where the
/// operator skipped.
pub open spec fn picked_name(credits: Seq<StaffCredit>, pick: Option<usize>) -> Option<Seq<char>> {
    match pick {
        Some(i) => Some(credits[i as int].name@),
        None => None,
    }
}

/// Whether a pick names a credit of the list (or is a skip).
pub open spec fn valid_pick(credits: Seq<StaffCredit>, pick: Option<usize>) -> bool {
    pick matches Some(i) ==> i < credits.len()
}

/// Resolves one staff role from the operator's pick among `credits`: the
/// chosen credit's name, its role dropped; a skip gives `None`.
pub fn resolve_staff(credits: &Vec<StaffCredit>, pick: Option<usize>) -> (r: Option<String>)
    requires
        valid_pick(credits@, pick),
    ensures
        crate::title::opt_view(r) == picked_name(credits@, pick),
{
    match pick {
        Some(i) => Some(credits[i].name.clone()),
        None => None,
    }
}

} // verus!
