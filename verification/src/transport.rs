//! The bus capability that the protocol runs on.
//!
//! The driver core never touches an I2C peripheral directly: it goes
//! through [`Transport`], a two-operation capability (`write`, `read`)
//! against one addressed device. The trait carries a ghost history of
//! the operations issued and of the bytes each successful read
//! returned, so the protocol's contracts can state exactly which bus
//! traffic a call produces — in particular that a multi-byte register
//! block is fetched by a single `read` call, never assembled from
//! several.
//!
//! [`ScriptedTransport`] is a verified in-crate implementation whose
//! read responses come from a script; tests use it to observe the bus
//! traffic concretely.

use vstd::prelude::*;

verus! {

/// A bus-level I2C failure: NACK, I/O fault, absent device. The
/// protocol never retries; it surfaces the failure to its caller.
#[derive(Clone, Copy, Debug, PartialEq, Eq, Structural)]
pub struct TransportError;

/// Errors of the device protocol.
#[derive(Clone, Copy, Debug, PartialEq, Eq, Structural)]
pub enum MpuError {
    /// The transport failed at the bus level; propagated verbatim.
    Transport(TransportError),
    /// The WhoAmI register did not hold the expected value: the
    /// attached peripheral is not an MPU-family device, and no
    /// configuration write was issued.
    DeviceNotRecognized,
}

/// One bus operation, as recorded in the ghost history.
pub enum BusOp {
    /// A `write` of the given bytes.
    Write {
        /// The bytes sent.
        data: Seq<u8>,
    },
    /// A `read` of the given number of bytes.
    Read {
        /// How many bytes were requested.
        len: nat,
    },
}

/// A two-operation capability against one addressed I2C peripheral.
///
/// `ops` is the history of every operation issued, successful or not:
/// an operation is recorded as issued the moment the call is made,
/// whether or not the bus then failed. `reads` is the history of the
/// bytes each successful `read` returned.
pub trait Transport {
    /// Every operation issued so far, in order. An implementation
    /// outside the verified world may leave this at its default, some
    /// arbitrary history; nothing is then provable about its traffic.
    open spec fn ops(&self) -> Seq<BusOp> {
        arbitrary()
    }

    /// The contents each successful read returned, in order.
    open spec fn reads(&self) -> Seq<Seq<u8>> {
        arbitrary()
    }

    /// Send `data` to the device: a register-pointer select when one
    /// byte, a register write (address byte, then values for that and
    /// consecutive registers) when more.
    fn write(&mut self, data: &Vec<u8>) -> (r: Result<(), TransportError>)
        ensures
            final(self).ops() == old(self).ops().push(BusOp::Write { data: data@ }),
            final(self).reads() == old(self).reads(),
    ;

    /// Read `buf.len()` bytes sequentially from the device's current
    /// register pointer, filling `buf` in order. What the bytes hold
    /// is the device's to decide; on success they are appended to
    /// `reads`.
    fn read(&mut self, buf: &mut Vec<u8>) -> (r: Result<(), TransportError>)
        ensures
            final(buf)@.len() == old(buf)@.len(),
            final(self).ops() == old(self).ops().push(
                BusOp::Read { len: old(buf)@.len() as nat },
            ),
            r.is_ok() ==> final(self).reads() == old(self).reads().push(final(buf)@),
            r.is_err() ==> final(self).reads() == old(self).reads(),
    ;
}

/// One recorded operation of a [`ScriptedTransport`], inspectable at
/// run time.
#[derive(Debug, PartialEq)]
pub enum OpRecord {
    /// A `write` of the given bytes.
    Write(Vec<u8>),
    /// A `read` of the given number of bytes.
    Read(usize),
}

/// The ghost operation an [`OpRecord`] stands for.
pub open spec fn op_of(rec: OpRecord) -> BusOp {
    match rec {
        OpRecord::Write(data) => BusOp::Write { data: data@ },
        OpRecord::Read(len) => BusOp::Read { len: len as nat },
    }
}

/// A transport whose read responses come from a fixed script, consumed
/// front first, and which records every operation issued. A `read`
/// fails, as a real bus might, when the script is exhausted or its
/// next response does not match the requested length; a `write` always
/// succeeds.
pub struct ScriptedTransport {
    /// The scripted read responses, consumed front first.
    pub responses: Vec<Vec<u8>>,
    /// How many responses have been consumed.
    pub consumed: usize,
    /// Every operation issued, in order.
    pub log: Vec<OpRecord>,
    /// The contents of each successful read, in order.
    pub read_log: Vec<Vec<u8>>,
}

impl ScriptedTransport {
    /// A fresh transport with the given read script and empty history.
    pub fn new(responses: Vec<Vec<u8>>) -> (t: ScriptedTransport)
        ensures
            t.ops() == Seq::<BusOp>::empty(),
            t.reads() == Seq::<Seq<u8>>::empty(),
            t.responses@ == responses@,
            t.consumed == 0,
    {
        let t = ScriptedTransport { responses, consumed: 0, log: Vec::new(), read_log: Vec::new() };
        proof {
            assert(t.ops() =~= Seq::<BusOp>::empty());
            assert(t.reads() =~= Seq::<Seq<u8>>::empty());
        }
        t
    }
}

impl Transport for ScriptedTransport {
    open spec fn ops(&self) -> Seq<BusOp> {
        self.log@.map(|i: int, rec: OpRecord| op_of(rec))
    }

    open spec fn reads(&self) -> Seq<Seq<u8>> {
        self.read_log@.map(|i: int, data: Vec<u8>| data@)
    }

    fn write(&mut self, data: &Vec<u8>) -> (r: Result<(), TransportError>) {
        self.log.push(OpRecord::Write(data.clone()));
        proof {
            assert(self.ops() =~= old(self).ops().push(BusOp::Write { data: data@ }));
        }
        Ok(())
    }

    fn read(&mut self, buf: &mut Vec<u8>) -> (r: Result<(), TransportError>) {
        self.log.push(OpRecord::Read(buf.len()));
        proof {
            assert(self.ops() =~= old(self).ops().push(
                BusOp::Read { len: old(buf)@.len() as nat },
            ));
        }
        if self.consumed < self.responses.len() {
            let response = self.responses[self.consumed].clone();
            if response.len() == buf.len() {
                self.consumed = self.consumed + 1;
                *buf = response;
                self.read_log.push(buf.clone());
                proof {
                    assert(self.reads() =~= old(self).reads().push(buf@));
                }
                return Ok(());
            }
            return Err(TransportError);
        }
        Err(TransportError)
    }
}

} // verus!
