use vstd::prelude::*;

verus! {

/// Something that can speak.
pub trait Animal {
    /// What the animal says.
    spec fn utterance(&self) -> Seq<char>;

    /// Says it.
    fn speak(&self) -> (r: String)
        ensures
            r@ == self.utterance(),
    ;
}

/// A dog.
pub struct Dog;

impl Animal for Dog {
    open spec fn utterance(&self) -> Seq<char> {
        "Woof!"@
    }

    fn speak(&self) -> (r: String) {
        "Woof!".to_string()
    }
}

} // verus!
