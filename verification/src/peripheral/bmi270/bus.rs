//! What the driver asks of the bus and what the bus answers.
//!
//! The driver core performs no I/O. It hands out a [`Request`] for the owner
//! of the bus to carry out, and takes back the [`Response`].

use vstd::prelude::*;

verus! {

/// One phase of a transaction, during which the device stays selected.
#[derive(Clone, Debug, PartialEq, Eq)]
pub enum Operation {
    /// Send these bytes.
    Write(Vec<u8>),
    /// Receive this many bytes.
    Read(usize),
}

/// An [`Operation`] as a mathematical value.
pub enum OperationView {
    Write(Seq<u8>),
    Read(nat),
}

impl View for Operation {
    type V = OperationView;

    open spec fn view(&self) -> OperationView {
        match self {
            Operation::Write(bytes) => OperationView::Write(bytes@),
            Operation::Read(len) => OperationView::Read(*len as nat),
        }
    }
}

/// One thing for the owner of the bus to do.
#[derive(Clone, Debug, PartialEq, Eq)]
pub enum Request {
    /// A single write of these bytes.
    Write(Vec<u8>),
    /// These operations, in order, as one transaction.
    Transaction(Vec<Operation>),
    /// Do nothing for this many milliseconds.
    DelayMs(u32),
}

/// A [`Request`] as a mathematical value.
pub enum RequestView {
    Write(Seq<u8>),
    Transaction(Seq<OperationView>),
    DelayMs(u32),
}

impl View for Request {
    type V = RequestView;

    open spec fn view(&self) -> RequestView {
        match self {
            Request::Write(bytes) => RequestView::Write(bytes@),
            Request::Transaction(ops) => RequestView::Transaction(
                ops@.map_values(|op: Operation| op@),
            ),
            Request::DelayMs(ms) => RequestView::DelayMs(*ms),
        }
    }
}

impl OperationView {
    /// How many bytes this operation receives.
    pub open spec fn read_len(self) -> nat {
        match self {
            OperationView::Write(_) => 0,
            OperationView::Read(len) => len,
        }
    }
}

/// How many bytes these operations receive in all.
pub open spec fn total_read_len(ops: Seq<OperationView>) -> nat
    decreases ops.len(),
{
    if ops.len() == 0 {
        0
    } else {
        total_read_len(ops.drop_last()) + ops.last().read_len()
    }
}

impl RequestView {
    /// How many bytes the bus hands back when it has carried out this request.
    pub open spec fn read_len(self) -> nat {
        match self {
            RequestView::Write(_) => 0,
            RequestView::Transaction(ops) => total_read_len(ops),
            RequestView::DelayMs(_) => 0,
        }
    }

    /// Whether the request touches the bus at all; a delay does not, and so
    /// cannot fail.
    pub open spec fn uses_bus(self) -> bool {
        !(self is DelayMs)
    }
}

/// What came of a [`Request`]. The error of the bus is `E`.
#[derive(Clone, Debug, PartialEq, Eq)]
pub enum Response<E> {
    /// The request was carried out and received nothing.
    Done,
    /// The request was carried out and received these bytes, in order.
    Data(Vec<u8>),
    /// The bus failed.
    Failed(E),
}

/// A [`Response`] as a mathematical value.
pub enum ResponseView<E> {
    Done,
    Data(Seq<u8>),
    Failed(E),
}

impl<E> View for Response<E> {
    type V = ResponseView<E>;

    open spec fn view(&self) -> ResponseView<E> {
        match self {
            Response::Done => ResponseView::Done,
            Response::Data(bytes) => ResponseView::Data(bytes@),
            Response::Failed(error) => ResponseView::Failed(*error),
        }
    }
}

impl<E> ResponseView<E> {
    /// Whether this is something the bus can say to `request`: a failure, if
    /// the request used the bus; else exactly the bytes that it asked for.
    pub open spec fn answers(self, request: RequestView) -> bool {
        match self {
            ResponseView::Done => request.read_len() == 0,
            ResponseView::Data(bytes) => request.read_len() > 0 && bytes.len()
                == request.read_len(),
            ResponseView::Failed(_) => request.uses_bus(),
        }
    }
}

} // verus!
