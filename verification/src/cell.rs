//! The completion cell: a single-assignment container that carries a payload
//! while work is in flight and is fulfilled exactly once, with or without a
//! recorded error message.

use vstd::prelude::*;

verus! {

/// The mathematical value of a [`CompletionCell`].
pub struct CellState<T> {
    /// The value carried by the cell.
    pub payload: T,
    /// Whether the cell has been fulfilled.
    pub finished: bool,
    /// The message recorded at fulfilment, if any.
    pub error: Option<Seq<char>>,
}

impl<T> CellState<T> {
    /// An error message is only ever present in a fulfilled cell.
    pub open spec fn wf(self) -> bool {
        self.error is Some ==> self.finished
    }
}

/// A value of type `T` together with a one-way `finished` flag and the error
/// message recorded when the flag was raised.
pub struct CompletionCell<T> {
    payload: T,
    finished: bool,
    error: Option<String>,
}

impl<T> View for CompletionCell<T> {
    type V = CellState<T>;

    closed spec fn view(&self) -> CellState<T> {
        CellState {
            payload: self.payload,
            finished: self.finished,
            error: match self.error {
                Some(m) => Some(m@),
                None => None,
            },
        }
    }
}

impl<T> CompletionCell<T> {
    /// A fresh, unfulfilled cell around `payload`.
    pub fn new(payload: T) -> (cell: Self)
        ensures
            cell@ == (CellState { payload, finished: false, error: None }),
            cell@.wf(),
    {
        CompletionCell { payload, finished: false, error: None }
    }

    /// Whether the cell has been fulfilled.
    pub fn is_finished(&self) -> (finished: bool)
        ensures
            finished == self@.finished,
    {
        self.finished
    }

    /// The payload as it stands.
    pub fn payload(&self) -> (payload: &T)
        ensures
            *payload == self@.payload,
    {
        &self.payload
    }

    /// The message recorded at fulfilment, if any.
    pub fn error(&self) -> (error: Option<&String>)
        ensures
            match error {
                Some(m) => self@.error == Some(m@),
                None => self@.error is None,
            },
    {
        self.error.as_ref()
    }

    /// Fulfils the cell, recording `error`. Only the first fulfilment takes
    /// effect: it returns `true`, and every later one returns `false` and
    /// leaves the cell as it was.
    pub fn fulfill(&mut self, error: Option<String>) -> (first: bool)
        ensures
            first == !old(self)@.finished,
            old(self)@.wf() ==> final(self)@.wf(),
            old(self)@.finished ==> final(self)@ == old(self)@,
            !old(self)@.finished ==> final(self)@ == (CellState {
                payload: old(self)@.payload,
                finished: true,
                error: match error {
                    Some(m) => Some(m@),
                    None => None,
                },
            }),
    {
        if self.finished {
            false
        } else {
            self.finished = true;
            self.error = error;
            true
        }
    }
}

impl CompletionCell<String> {
    /// Appends `text` to the accumulated payload while the cell is
    /// unfulfilled; a fulfilled cell is left as it was. Returns whether the
    /// text was taken.
    pub fn append(&mut self, text: &str) -> (taken: bool)
        ensures
            taken == !old(self)@.finished,
            old(self)@.finished ==> final(self)@ == old(self)@,
            !old(self)@.finished ==> {
                &&& final(self)@.payload@ == old(self)@.payload@ + text@
                &&& !final(self)@.finished
                &&& final(self)@.error == old(self)@.error
            },
    {
        if self.finished {
            false
        } else {
            self.payload.append(text);
            true
        }
    }
}

} // verus!
