//! A pass-through processing unit: one input endpoint, one output
//! endpoint, any format, and the output is a copy of the input.

use vstd::prelude::*;
use crate::caps::{CapsDef, MediaFormat, PadCaps};
use crate::cata::{Process, ProcessingError, Property, PropertyValue};

verus! {

/// The pass-through processing unit.
pub struct Identity {}

impl Default for Identity {
    /// A fresh pass-through unit; it carries no state.
    fn default() -> (r: Self)
        ensures
            r == (Identity {  }),
    {
        Identity {  }
    }
}

impl CapsDef for Identity {
    /// One input endpoint and one output endpoint, both accepting any
    /// format.
    fn caps_def() -> (Vec<PadCaps>, Vec<PadCaps>) {
        let in_caps = PadCaps { name: "in_any".to_owned(), caps: MediaFormat::Any };
        let out_caps = PadCaps { name: "out_any".to_owned(), caps: MediaFormat::Any };
        (vec![in_caps], vec![out_caps])
    }
}

impl<U: Clone> Process<U> for Identity {
    /// Copies each input unit to the output slot of the same index, as far
    /// as both exist; never fails.
    fn process(&mut self, inbuf: &Vec<U>, outbuf: &mut Vec<U>) -> (r: Result<(), ProcessingError>)
        ensures
            r is Ok,
            forall|i: int|
                0 <= i < inbuf@.len() && i < final(outbuf)@.len() ==> vstd::pervasive::cloned::<U>(
                    inbuf@[i],
                    #[trigger] final(outbuf)@[i],
                ),
            forall|i: int|
                inbuf@.len() <= i < final(outbuf)@.len() ==> final(outbuf)@[i] == old(outbuf)@[i],
    {
        let ghost out_len = outbuf@.len();
        let mut i: usize = 0;
        while i < inbuf.len()
            invariant
                i <= inbuf@.len(),
                outbuf@.len() == out_len,
                forall|j: int|
                    0 <= j < i && j < outbuf@.len() ==> vstd::pervasive::cloned::<U>(
                        inbuf@[j],
                        #[trigger] outbuf@[j],
                    ),
                forall|j: int| i <= j < outbuf@.len() ==> outbuf@[j] == old(outbuf)@[j],
            decreases inbuf@.len() - i,
        {
            if i < outbuf.len() {
                outbuf[i] = inbuf[i].clone();
            }
            i = i + 1;
        }
        Ok(())
    }

    /// The pass-through unit declares no properties, so a configuration
    /// change has nothing to apply to.
    fn set_property(&mut self, property: &Property, value: &PropertyValue) {
    }
}

} // verus!
