use vstd::prelude::*;

verus! {

/// A parent's way of reading what one of its children says.
///
/// A child speaks in messages of its own and knows nothing of where it sits. For
/// each child the parent holds a mapping that turns the child's message into one
/// of the parent's, and that may add what only the parent knows: which of
/// several like children spoke, or which selection a generic control stands for.
pub trait Relabel<Child> {
    /// The parent's kind of message.
    type Parent;

    /// The parent's message for a child's message.
    spec fn relabeled(&self, child: Child) -> Self::Parent;

    /// Turns a child's message into the parent's.
    fn relabel(&self, child: Child) -> (parent: Self::Parent)
        ensures
            parent == self.relabeled(child),
    ;
}

/// Passes on what a child said, through the mapping the parent holds for that
/// child: one message of the parent for each message of the child, in the order
/// in which the child sent them.
pub fn forward<Child: Copy, Mapping: Relabel<Child>>(
    map: &Mapping,
    children: &Vec<Child>,
) -> (parents: Vec<Mapping::Parent>)
    ensures
        parents@ == children@.map_values(|child: Child| map.relabeled(child)),
{
    let mut parents: Vec<Mapping::Parent> = Vec::new();
    let mut done: usize = 0;
    while done < children.len()
        invariant
            done <= children@.len(),
            parents@ == children@.take(done as int).map_values(|child: Child| map.relabeled(child)),
        decreases children@.len() - done,
    {
        parents.push(map.relabel(children[done]));
        done = done + 1;
    }
    parents
}

} // verus!
