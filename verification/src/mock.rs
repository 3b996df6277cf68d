//! A scripted bus for tests: it is constructed with the exact sequence of
//! transactions it will allow, answers each read from the script, and fails
//! any transaction that deviates from it. It is a verified implementation of
//! [`Transport`], so the trait's contract is known to be satisfiable.

use vstd::prelude::*;
use vstd::math::min;
use crate::transport::{BusOp, Transport};

verus! {

/// One scripted transaction.
#[derive(Debug)]
pub enum Transaction {
    /// Expect a plain write of these bytes to this address.
    Write(u8, Vec<u8>),
    /// Expect a combined transaction at this address sending the first byte
    /// sequence, and answer it with the second.
    WriteRead(u8, Vec<u8>, Vec<u8>),
}

impl Transaction {
    /// The bus operation this scripted transaction completes as.
    pub open spec fn op(self) -> BusOp {
        match self {
            Transaction::Write(addr, data) => BusOp::Write { addr, data: data@ },
            Transaction::WriteRead(addr, sent, received) => BusOp::WriteRead {
                addr,
                sent: sent@,
                received: received@,
            },
        }
    }
}

/// Error returned by the scripted bus when a transaction deviates from the
/// script.
#[derive(Debug, Clone, Copy, PartialEq, Eq, Structural)]
pub struct MockBusError;

/// A scripted bus.
#[derive(Debug)]
pub struct MockBus {
    expected: Vec<Transaction>,
    pos: usize,
}

impl MockBus {
    /// The whole script, as the bus operations it stands for.
    pub closed spec fn script(&self) -> Seq<BusOp> {
        self.expected@.map_values(|t: Transaction| t.op())
    }

    /// Create a scripted bus that will allow exactly `expected`, in order.
    pub fn new(expected: Vec<Transaction>) -> (r: MockBus)
        ensures
            r.script() == expected@.map_values(|t: Transaction| t.op()),
            r.log() == Seq::<BusOp>::empty(),
    {
        let r = MockBus { expected, pos: 0 };
        proof {
            assert(r.script().take(0) =~= Seq::<BusOp>::empty());
        }
        r
    }

    /// True exactly when the whole script has completed.
    pub fn done(&self) -> (r: bool)
        ensures
            r == (self.log() == self.script()),
    {
        proof {
            if self.pos >= self.expected.len() {
                assert(self.script().take(self.script().len() as int) =~= self.script());
            } else {
                assert(self.log().len() < self.script().len());
            }
        }
        self.pos >= self.expected.len()
    }
}

/// Compare a slice with a vector byte for byte.
fn bytes_equal(a: &[u8], b: &Vec<u8>) -> (r: bool)
    ensures
        r == (a@ == b@),
{
    if a.len() != b.len() {
        return false;
    }
    let mut i: usize = 0;
    while i < a.len()
        invariant
            i <= a@.len(),
            a@.len() == b@.len(),
            forall|j: int| 0 <= j < i ==> a@[j] == b@[j],
        decreases a@.len() - i,
    {
        if a[i] != b[i] {
            return false;
        }
        i = i + 1;
    }
    proof {
        assert(a@ =~= b@);
    }
    true
}

/// Copy a vector of bytes.
fn copy_bytes(src: &Vec<u8>) -> (r: Vec<u8>)
    ensures
        r@ == src@,
{
    let mut r: Vec<u8> = Vec::new();
    let mut i: usize = 0;
    while i < src.len()
        invariant
            i <= src@.len(),
            r@ == src@.take(i as int),
        decreases src@.len() - i,
    {
        r.push(src[i]);
        i = i + 1;
        proof {
            assert(src@.take(i as int) =~= src@.take(i - 1).push(src@[i - 1]));
        }
    }
    proof {
        assert(src@.take(src@.len() as int) =~= src@);
    }
    r
}

impl Transport for MockBus {
    type BusError = MockBusError;

    closed spec fn log(&self) -> Seq<BusOp> {
        self.script().take(min(self.pos as int, self.expected@.len() as int))
    }

    fn bus_write(&mut self, addr: u8, data: &[u8]) -> (res: Result<(), MockBusError>) {
        if self.pos < self.expected.len() {
            let idx = self.pos;
            let matched = match &self.expected[idx] {
                Transaction::Write(a, d) => *a == addr && bytes_equal(data, d),
                Transaction::WriteRead(_, _, _) => false,
            };
            if matched {
                self.pos = idx + 1;
                proof {
                    assert(final(self).log() =~= old(self).log().push(
                        BusOp::Write { addr, data: data@ },
                    ));
                }
                return Ok(());
            }
        }
        Err(MockBusError)
    }

    fn bus_write_read(&mut self, addr: u8, sent: &[u8], count: usize) -> (res: Result<
        Vec<u8>,
        MockBusError,
    >) {
        if self.pos < self.expected.len() {
            let idx = self.pos;
            let mut response: Option<Vec<u8>> = None;
            match &self.expected[idx] {
                Transaction::WriteRead(a, s, resp) => {
                    if *a == addr && bytes_equal(sent, s) && resp.len() == count {
                        response = Some(copy_bytes(resp));
                    }
                },
                Transaction::Write(_, _) => {},
            }
            match response {
                Some(out) => {
                    self.pos = idx + 1;
                    proof {
                        assert(final(self).log() =~= old(self).log().push(
                            BusOp::WriteRead { addr, sent: sent@, received: out@ },
                        ));
                    }
                    return Ok(out);
                },
                None => {},
            }
        }
        Err(MockBusError)
    }
}

} // verus!
