use vstd::prelude::*;

verus! {

/// A bare text body.
pub struct Jini {
    pub body: String,
}

impl Jini {
    /// A `Jini` whose body is empty.
    pub fn empty() -> (r: Jini)
        ensures
            r.body@ == Seq::<char>::empty(),
    {
        Jini { body: String::new() }
    }
}

} // verus!
