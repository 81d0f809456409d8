//! Sensors: the polled source of discrete input symbols.
//!
//! Sensing never fails: a poll yields the next queued symbol or nothing.
//! Sensors built without a phone are inert and never yield anything.

use vstd::prelude::*;

use crate::phone::Phone;
use crate::states::Input;

verus! {

/// A polled source of input symbols; its mathematical content is the
/// queue of symbols still to be delivered, front first.
pub struct Sensors {
    queue: Vec<Input>,
}

impl View for Sensors {
    type V = Seq<Input>;

    closed spec fn view(&self) -> Seq<Input> {
        self.queue@
    }
}

impl Sensors {
    /// Inert sensors that never yield a symbol.
    pub fn idle() -> (r: Sensors)
        ensures
            r@ == Seq::<Input>::empty(),
    {
        let sensors = Sensors { queue: Vec::new() };
        proof {
            assert(sensors@ =~= Seq::<Input>::empty());
        }
        sensors
    }

    /// Sensors that will deliver the given symbols, in order.
    pub fn queued(queue: Vec<Input>) -> (r: Sensors)
        ensures
            r@ == queue@,
    {
        Sensors { queue }
    }

    /// Polls once, without blocking: yields the front symbol of the
    /// queue and consumes it, or yields nothing from an empty queue.
    pub fn poll(&mut self) -> (r: Option<Input>)
        ensures
            old(self)@.len() == 0 ==> r is None && final(self)@ == old(self)@,
            old(self)@.len() > 0 ==> r == Some(old(self)@[0]) && final(self)@ == old(
                self,
            )@.drop_first(),
    {
        if self.queue.len() == 0 {
            None
        } else {
            let front = self.queue.remove(0);
            proof {
                assert(self.queue@ =~= old(self)@.drop_first());
            }
            Some(front)
        }
    }
}

/// Builds the sensors for a session: a present phone line delivers its
/// pending symbols; an absent one yields inert sensors.
pub fn init_sensors(phone: &Option<Phone>) -> (r: Sensors)
    ensures
        r@ == (match *phone {
            Some(ref p) => p@,
            None => Seq::<Input>::empty(),
        }),
{
    match phone {
        Some(p) => {
            let pending = p.pending();
            let mut queue: Vec<Input> = Vec::new();
            let mut i: usize = 0;
            while i < pending.len()
                invariant
                    i <= pending.len(),
                    queue@ == pending@.take(i as int),
                decreases pending.len() - i,
            {
                queue.push(pending[i]);
                i += 1;
                proof {
                    assert(queue@ =~= pending@.take(i as int));
                }
            }
            proof {
                assert(pending@.take(pending@.len() as int) =~= pending@);
            }
            Sensors::queued(queue)
        },
        None => Sensors::idle(),
    }
}

} // verus!
