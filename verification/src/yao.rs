use vstd::prelude::*;

verus! {

/// A single divination line (yao): yang when `status` is true, yin when
/// `status` is false. A line has no identity beyond its polarity.
#[derive(Copy, Clone, Debug, PartialEq, Eq, Structural)]
pub struct Yao {
    pub status: bool,
}

/// The canonical name of a line's polarity.
pub open spec fn spec_yao_name(y: Yao) -> Seq<char> {
    if y.status {
        "阳"@
    } else {
        "阴"@
    }
}

impl Yao {
    pub fn new(is_yang: bool) -> (r: Yao)
        ensures
            r.status == is_yang,
    {
        Yao { status: is_yang }
    }

    pub fn is_yang(&self) -> (r: bool)
        ensures
            r == self.status,
    {
        self.status
    }

    pub fn is_yin(&self) -> (r: bool)
        ensures
            r == !self.status,
    {
        !self.status
    }

    pub fn name(&self) -> (r: &'static str)
        ensures
            r@ == spec_yao_name(*self),
    {
        if self.status {
            "阳"
        } else {
            "阴"
        }
    }

    /// Flip the polarity in place.
    pub fn reverse(&mut self)
        ensures
            final(self).status == !old(self).status,
    {
        self.status = !self.status;
    }

    /// Draw a uniformly random line. Any polarity may come back.
    pub fn random_yao() -> Yao {
        Yao::new(random_bool())
    }
}

/// Relies on rand::random::<bool>: a random boolean drawn from the
/// thread-local generator; nothing is promised of its value.
#[verifier::external_body]
fn random_bool() -> bool {
    rand::random::<bool>()
}

} // verus!
