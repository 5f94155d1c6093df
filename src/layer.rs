//! Drawing order of the sprites.
use vstd::prelude::*;

verus! {

/// Depth layers, from the back of the scene to the front.
#[derive(Clone, Copy, Debug, PartialEq, Eq, Structural)]
pub enum Layer {
    Background,
    Ground,
    Pipe,
    Bird,
}

/// Depth index of a layer: its position in the back-to-front order.
pub open spec fn layer_depth(l: Layer) -> i16 {
    match l {
        Layer::Background => 0,
        Layer::Ground => 1,
        Layer::Pipe => 2,
        Layer::Bird => 3,
    }
}

impl From<Layer> for i16 {
    fn from(value: Layer) -> (r: i16)
        ensures
            r == layer_depth(value),
    {
        match value {
            Layer::Background => 0,
            Layer::Ground => 1,
            Layer::Pipe => 2,
            Layer::Bird => 3,
        }
    }
}

impl vstd::std_specs::convert::FromSpecImpl<Layer> for i16 {
    open spec fn obeys_from_spec() -> bool {
        true
    }

    open spec fn from_spec(v: Layer) -> i16 {
        layer_depth(v)
    }
}

} // verus!
