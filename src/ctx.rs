use vstd::prelude::*;

verus! {

/// The identity that the token gate attaches to a request.
#[derive(Debug, Clone)]
pub struct Ctx {
    user_id: String,
}

impl Ctx {
    pub closed spec fn user(&self) -> Seq<char> {
        self.user_id@
    }

    pub fn new(user_id: &str) -> (r: Self)
        ensures
            r.user() == user_id@,
    {
        Ctx { user_id: user_id.to_owned() }
    }

    pub fn user_id(&self) -> (r: &String)
        ensures
            r@ == self.user(),
    {
        &self.user_id
    }
}

} // verus!
