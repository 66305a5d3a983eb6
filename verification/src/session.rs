use vstd::prelude::*;

use crate::full::FullView;
use crate::merge::V1MergeError;
use crate::message::SignalKStreamMessage;
use crate::message::classify;
use crate::message::delta_rel;
use crate::message::delta_shape;
use crate::message::hello_shape;
use crate::message::obj_str_field;
use crate::storage::Storage;
use crate::storage::apply_delta;
use crate::value::V1Value;

verus! {

/// The session state of one stream: nothing has arrived yet, or a handshake
/// has been seen.
#[derive(PartialEq, Eq, Structural, Debug, Clone, Copy)]
pub enum SignalKWSState {
    Disconnected,
    Connected,
}

/// The session layer of one feed: it classifies each inbound message and
/// gates how the merge engine is invoked.  A handshake connects the session
/// and may designate the self vessel (the first handshake that names one
/// wins); deltas merge whatever the state, so data arriving before any
/// handshake is kept; anything unrecognized is dropped without touching the
/// tree.
#[derive(Debug)]
pub struct SignalKUpdater {
    pub state: SignalKWSState,
    pub storage: Storage,
}

impl Default for SignalKUpdater {
    fn default() -> (r: Self)
        ensures
            r.state == SignalKWSState::Disconnected,
            r.storage@ == (FullView {
                version: "1.7.0"@,
                self_: Seq::<char>::empty(),
                vessels: None,
                sources: None,
            }),
    {
        SignalKUpdater { state: SignalKWSState::Disconnected, storage: Storage::default() }
    }
}

impl SignalKUpdater {
    /// Handles one classified inbound value.  A handshake connects the
    /// session and, when no self vessel is designated yet, adopts the
    /// handshake's self context.  A delta merges record by record.  An
    /// unrecognized payload changes nothing.
    pub fn handle_message(&mut self, val: V1Value) -> (errs: Vec<V1MergeError>)
        ensures
            hello_shape(val) ==> {
                &&& final(self).state == SignalKWSState::Connected
                &&& errs@ == Seq::<V1MergeError>::empty()
                &&& final(self).storage@ == (FullView {
                    self_: if old(self).storage@.self_ == Seq::<char>::empty() && obj_str_field(
                        val,
                        "self"@,
                    ) is Some {
                        obj_str_field(val, "self"@)->0
                    } else {
                        old(self).storage@.self_
                    },
                    ..old(self).storage@
                })
            },
            !hello_shape(val) && delta_shape(val) ==> {
                &&& final(self).state == old(self).state
                &&& exists|d: crate::delta::V1DeltaFormat|
                    {
                        &&& #[trigger] delta_rel(d, val)
                        &&& final(self).storage@ == apply_delta(old(self).storage@, d).0
                        &&& errs@ == apply_delta(old(self).storage@, d).1
                    }
            },
            !hello_shape(val) && !delta_shape(val) ==> {
                &&& final(self).state == old(self).state
                &&& final(self).storage@ == old(self).storage@
                &&& errs@ == Seq::<V1MergeError>::empty()
            },
    {
        match classify(val) {
            SignalKStreamMessage::Hello(h) => {
                self.state = SignalKWSState::Connected;
                match &h.self_ {
                    Some(s) => {
                        let unset = self.storage.get().self_.as_str().is_empty();
                        proof {
                            if unset {
                                assert(self.storage@.self_ =~= Seq::<char>::empty());
                            }
                        }
                        if unset {
                            self.storage.set_self(s.as_str());
                        }
                    },
                    None => {},
                }
                Vec::new()
            },
            SignalKStreamMessage::Delta(d) => self.storage.update(d),
            SignalKStreamMessage::Unrecognized(_) => Vec::new(),
        }
    }
}

} // verus!
