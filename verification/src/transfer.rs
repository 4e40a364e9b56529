//! Sending a body to the object store in parts: what is asked of the store and
//! of the source at each point, and when the upload is called off.

use vstd::prelude::*;
use crate::number::int_text;
use crate::storage::{concat, frozen_bytes, part_error, s3_error, StorageError, Upload, PART_SIZE};

verus! {

/// What is to be done next.
pub enum Action {
    /// Read the next chunk of the body.
    Read,
    /// Send a part under its number.
    Send(i32, bytes::Bytes),
    /// Ask the store to put the parts together.
    Complete,
    /// Ask the store to forget the upload.
    Abort,
    /// Nothing: the body is stored, so many bytes.
    Finished(u64),
    /// Nothing: the body is not stored.
    Failed(StorageError),
}

/// Whose answer a transfer waits for.
#[derive(Clone, Copy, Debug, PartialEq, Eq, Structural)]
pub enum Awaits {
    Chunk,
    Part,
    Completion,
    Abort,
    Nothing,
}

enum State {
    Reading(Upload),
    Sending(Upload),
    SendingLast { number: i32, total: u64 },
    Completing { total: u64 },
    Aborting(StorageError),
    Ended,
}

/// A body on its way to the store.
pub struct Transfer {
    state: State,
    limit: u64,
    read: Ghost<Seq<u8>>,
    stored: Ghost<Seq<Seq<u8>>>,
    in_flight: Ghost<Seq<u8>>,
}

impl Transfer {
    /// Whose answer the transfer waits for.
    pub closed spec fn awaiting(self) -> Awaits {
        match self.state {
            State::Reading(_) => Awaits::Chunk,
            State::Sending(_) => Awaits::Part,
            State::SendingLast { .. } => Awaits::Part,
            State::Completing { .. } => Awaits::Completion,
            State::Aborting(_) => Awaits::Abort,
            State::Ended => Awaits::Nothing,
        }
    }

    /// Whether the source has no more to give.
    pub closed spec fn at_end(self) -> bool {
        self.state is SendingLast || self.state is Completing
    }

    /// The most bytes that the body may have.
    pub closed spec fn limit(self) -> u64 {
        self.limit
    }

    /// The bytes that the source gave.
    pub closed spec fn read(self) -> Seq<u8> {
        self.read@
    }

    /// The parts that the store has taken.
    pub closed spec fn stored(self) -> Seq<Seq<u8>> {
        self.stored@
    }

    /// The part that was sent and not answered.
    pub closed spec fn in_flight(self) -> Seq<u8> {
        self.in_flight@
    }

    /// The bytes that were read and not sent.
    pub closed spec fn unsent(self) -> Seq<u8> {
        match self.state {
            State::Reading(u) => u.pending(),
            State::Sending(u) => u.pending(),
            _ => Seq::empty(),
        }
    }

    /// Why the upload is called off.
    pub closed spec fn failure(self) -> Option<StorageError> {
        match self.state {
            State::Aborting(e) => Some(e),
            _ => None,
        }
    }

    /// What was read is what was stored, what is in flight and what is unsent,
    /// in that order; less than a part waits while the source is read.
    pub closed spec fn wf(self) -> bool {
        match self.state {
            State::Reading(u) => {
                &&& u.wf()
                &&& u.limit() == self.limit
                &&& u.received() == self.read@
                &&& u.parts() == self.stored@
                &&& u.pending().len() < PART_SIZE
            },
            State::Sending(u) => {
                &&& u.wf()
                &&& u.limit() == self.limit
                &&& u.received() == self.read@
                &&& u.parts() == self.stored@.push(self.in_flight@)
                &&& u.parts().len() <= i32::MAX
            },
            State::SendingLast { number, total } => {
                &&& number == self.stored@.len() + 1
                &&& concat(self.stored@.push(self.in_flight@)) == self.read@
                &&& all_full(self.stored@)
                &&& self.in_flight@.len() < PART_SIZE
                &&& self.in_flight@.len() == 0 ==> self.stored@.len() == 0
                &&& total == self.read@.len()
                &&& total <= self.limit
            },
            State::Completing { total } => {
                &&& self.stored@.len() > 0
                &&& all_full(self.stored@.drop_last())
                &&& self.stored@.last().len() <= PART_SIZE
                &&& self.stored@.last().len() == 0 ==> self.read@.len() == 0
                &&& concat(self.stored@) == self.read@
                &&& total == self.read@.len()
                &&& total <= self.limit
            },
            _ => true,
        }
    }

    /// When the store is asked to put the parts together it has taken all of
    /// them, they make up the body byte for byte, and the body is within the
    /// limit. Every part but the last is full; the last is no larger, and it is
    /// empty only where the body is.
    pub proof fn a_completed_object_is_the_body(self)
        requires
            self.wf(),
            self.awaiting() == Awaits::Completion,
        ensures
            concat(self.stored()) == self.read(),
            self.read().len() <= self.limit(),
            self.stored().len() > 0,
            all_full(self.stored().drop_last()),
            self.stored().last().len() <= PART_SIZE,
            self.stored().last().len() == 0 ==> self.read().len() == 0,
    {
    }

    /// While the source is read, nothing that it gave is lost, and less than a
    /// part of it is kept in memory whenever more is asked for.
    pub proof fn nothing_is_lost_on_the_way(self)
        requires
            self.wf(),
            self.awaiting() == Awaits::Chunk || self.awaiting() == Awaits::Part,
        ensures
            self.awaiting() == Awaits::Chunk ==> concat(self.stored()) + self.unsent()
                == self.read(),
            self.awaiting() == Awaits::Part ==> concat(self.stored()) + self.in_flight()
                + self.unsent() == self.read(),
            self.awaiting() == Awaits::Chunk ==> self.unsent().len() < PART_SIZE,
            self.read().len() <= self.limit(),
    {
        match self.state {
            State::Reading(u) => u.bytes_are_accounted_for(),
            State::Sending(u) => {
                u.bytes_are_accounted_for();
                assert(u.parts().drop_last() =~= self.stored@);
            },
            _ => {
                assert(self.stored@.push(self.in_flight@).drop_last() =~= self.stored@);
                assert(concat(self.stored@) + self.in_flight@ + Seq::<u8>::empty() == concat(
                    self.stored@,
                ) + self.in_flight@);
            },
        }
    }

    /// Whether the transfer goes on as `next`, called off for the reason
    /// `next.failure()`.
    pub open spec fn called_off(next: (Transfer, Action)) -> bool {
        &&& next.0.wf()
        &&& next.0.awaiting() == Awaits::Abort
        &&& next.1 is Abort
        &&& next.0.failure() is Some
    }

    /// Whether the first part of `unsent` goes out next, from a transfer in
    /// which the store has taken `stored`.
    pub open spec fn sends(next: (Transfer, Action), stored: Seq<Seq<u8>>, part: Seq<u8>) -> bool {
        &&& next.0.wf()
        &&& next.0.awaiting() == Awaits::Part
        &&& next.0.stored() == stored
        &&& next.0.in_flight() == part
        &&& next.1 matches Action::Send(number, body) && number == stored.len() + 1
            && frozen_bytes(body) == part
    }

    /// Whether the source is read on.
    pub open spec fn reads_on(next: (Transfer, Action), stored: Seq<Seq<u8>>) -> bool {
        &&& next.0.wf()
        &&& next.0.awaiting() == Awaits::Chunk
        &&& next.0.stored() == stored
        &&& next.1 is Read
    }

    /// Whether the parts are to be put together.
    pub open spec fn completes(next: (Transfer, Action), stored: Seq<Seq<u8>>) -> bool {
        &&& next.0.wf()
        &&& next.0.awaiting() == Awaits::Completion
        &&& next.0.at_end()
        &&& next.0.stored() == stored
        &&& next.1 is Complete
    }

    /// Whether `r` is how the transfer goes on with a chunk of the source.
    pub open spec fn takes_in(self, r: (Transfer, Action), chunk: Seq<u8>) -> bool {
        &&& r.0.limit() == self.limit()
        &&& self.read().len() + chunk.len() > self.limit() ==> {
            &&& Self::called_off(r)
            &&& r.0.failure() == Some(StorageError::TooLarge { limit: self.limit() })
        }
        &&& self.read().len() + chunk.len() <= self.limit() ==> {
            let waiting = self.unsent() + chunk;
            &&& r.0.read() == self.read() + chunk
            &&& if waiting.len() >= PART_SIZE {
                &&& Self::sends(r, self.stored(), waiting.take(PART_SIZE as int))
                &&& !r.0.at_end()
                &&& r.0.unsent() == waiting.skip(PART_SIZE as int)
            } else {
                &&& Self::reads_on(r, self.stored())
                &&& r.0.unsent() == waiting
            }
        }
    }

    /// Whether `r` is how the transfer goes on once the source has ended.
    pub open spec fn comes_to_its_end(self, r: (Transfer, Action)) -> bool {
        &&& r.0.limit() == self.limit()
        &&& r.0.read() == self.read()
        &&& r.0.at_end()
        &&& if self.unsent().len() > 0 || self.stored().len() == 0 {
            Self::sends(r, self.stored(), self.unsent())
        } else {
            Self::completes(r, self.stored())
        }
    }

    /// Whether `r` is how the transfer goes on once the store took a part.
    pub open spec fn goes_on_after_a_part(self, r: (Transfer, Action)) -> bool {
        let stored = self.stored().push(self.in_flight());
        &&& r.0.limit() == self.limit()
        &&& r.0.read() == self.read()
        &&& if self.at_end() {
            Self::completes(r, stored)
        } else if self.unsent().len() >= PART_SIZE {
            &&& Self::sends(r, stored, self.unsent().take(PART_SIZE as int))
            &&& !r.0.at_end()
            &&& r.0.unsent() == self.unsent().skip(PART_SIZE as int)
        } else {
            &&& Self::reads_on(r, stored)
            &&& r.0.unsent() == self.unsent()
        }
    }

    /// A chunk is taken in whole, after all that came before it, as long as the
    /// body stays within the limit; one that goes beyond it ends the upload for
    /// that reason.
    pub proof fn a_chunk_is_taken_in_whole(self, r: (Transfer, Action), chunk: Seq<u8>)
        requires
            self.wf(),
            self.awaiting() == Awaits::Chunk,
            self.takes_in(r, chunk),
        ensures
            self.read().len() + chunk.len() > self.limit() <==> r.1 is Abort,
            r.1 is Abort ==> (r.0.failure() matches Some(StorageError::TooLarge { limit }) && limit
                == self.limit()),
            !(r.1 is Abort) ==> r.0.read() == self.read() + chunk,
            r.1 is Read ==> concat(r.0.stored()) + r.0.unsent() == self.read() + chunk,
            r.1 matches Action::Send(number, part) ==> {
                &&& number == self.stored().len() + 1
                &&& frozen_bytes(part).len() == PART_SIZE
                &&& concat(r.0.stored()) + frozen_bytes(part) + r.0.unsent() == self.read() + chunk
            },
            r.0.limit() == self.limit(),
    {
        if self.read().len() + chunk.len() <= self.limit() {
            r.0.nothing_is_lost_on_the_way();
        }
    }

    /// Once the source has ended, what is left goes out as the last part, and
    /// where nothing is left the parts are put together; they make up the body.
    pub proof fn what_is_left_goes_out_last(self, r: (Transfer, Action))
        requires
            self.wf(),
            self.awaiting() == Awaits::Chunk,
            self.comes_to_its_end(r),
        ensures
            r.0.read() == self.read(),
            r.1 is Send || r.1 is Complete,
            r.1 matches Action::Send(number, part) ==> {
                &&& number == self.stored().len() + 1
                &&& concat(self.stored()) + frozen_bytes(part) == self.read()
            },
            r.1 is Complete ==> concat(r.0.stored()) == self.read(),
    {
        self.nothing_is_lost_on_the_way();
        if r.1 is Complete {
            r.0.a_completed_object_is_the_body();
        }
    }

    /// Each part that the store took counts once, after those before it; the
    /// parts are put together exactly after the last.
    pub proof fn each_part_counts_once(self, r: (Transfer, Action))
        requires
            self.wf(),
            self.awaiting() == Awaits::Part,
            self.goes_on_after_a_part(r),
        ensures
            r.0.read() == self.read(),
            r.0.stored() == self.stored().push(self.in_flight()),
            r.1 is Complete <==> self.at_end(),
            r.1 is Complete ==> concat(r.0.stored()) == self.read(),
            r.1 is Read ==> concat(r.0.stored()) + r.0.unsent() == self.read(),
            r.1 matches Action::Send(number, part) ==> {
                &&& number == self.stored().len() + 2
                &&& concat(r.0.stored()) + frozen_bytes(part) + r.0.unsent() == self.read()
            },
    {
        if r.1 is Complete {
            r.0.a_completed_object_is_the_body();
        } else {
            r.0.nothing_is_lost_on_the_way();
        }
    }

    /// Starts a transfer once the store was asked for an upload: `Ok` with
    /// whether it gave one a name, or what it said. Where it did not, there is
    /// nothing to call off. The first thing to do is to read.
    pub fn begin(opened: Result<bool, String>, max_bytes: u64) -> (r: Result<
        Transfer,
        StorageError,
    >)
        requires
            max_bytes <= 0x7fff_fffd * PART_SIZE,
        ensures
            match opened {
                Ok(true) => r matches Ok(t) && {
                    &&& t.wf()
                    &&& t.awaiting() == Awaits::Chunk
                    &&& t.limit() == max_bytes
                    &&& t.read() == Seq::<u8>::empty()
                    &&& t.stored() == Seq::<Seq<u8>>::empty()
                    &&& t.unsent() == Seq::<u8>::empty()
                },
                Ok(false) => r matches Err(StorageError::S3(m)) && m@ == "missing upload_id"@,
                Err(detail) => r matches Err(StorageError::S3(m)) && m@
                    == "create_multipart_upload"@ + ": "@ + detail@,
            },
    {
        match opened {
            Ok(true) => {
                let upload: Upload = Upload::new(max_bytes);
                Ok(
                    Transfer {
                        state: State::Reading(upload),
                        limit: max_bytes,
                        read: Ghost(Seq::empty()),
                        stored: Ghost(Seq::empty()),
                        in_flight: Ghost(Seq::empty()),
                    },
                )
            },
            Ok(false) => Err(StorageError::S3("missing upload_id".to_owned())),
            Err(detail) => Err(s3_error("create_multipart_upload", detail.as_str())),
        }
    }

    fn call_off(self, reason: StorageError) -> (r: (Transfer, Action))
        ensures
            Self::called_off(r),
            r.0.failure() == Some(reason),
            r.0.read() == self.read(),
            r.0.stored() == self.stored(),
            r.0.limit() == self.limit(),
    {
        (
            Transfer {
                state: State::Aborting(reason),
                limit: self.limit,
                read: self.read,
                stored: self.stored,
                in_flight: self.in_flight,
            },
            Action::Abort,
        )
    }

    /// Goes on with an upload whose parts are all stored.
    fn go_on(limit: u64, upload: Upload) -> (r: (Transfer, Action))
        requires
            upload.wf(),
            upload.limit() == limit,
        ensures
            r.0.read() == upload.received(),
            r.0.limit() == limit,
            upload.pending().len() >= PART_SIZE ==> {
                &&& Self::sends(r, upload.parts(), upload.pending().take(PART_SIZE as int))
                &&& !r.0.at_end()
                &&& r.0.unsent() == upload.pending().skip(PART_SIZE as int)
            },
            upload.pending().len() < PART_SIZE ==> Self::reads_on(r, upload.parts())
                && r.0.unsent() == upload.pending(),
    {
        let ghost read = upload.received();
        let ghost stored = upload.parts();
        let mut u: Upload = upload;
        match u.next_part() {
            Some((number, part)) => {
                let t: Transfer = Transfer {
                    state: State::Sending(u),
                    limit,
                    read: Ghost(read),
                    stored: Ghost(stored),
                    in_flight: Ghost(frozen_bytes(part)),
                };
                (t, Action::Send(number, part))
            },
            None => {
                let t: Transfer = Transfer {
                    state: State::Reading(u),
                    limit,
                    read: Ghost(read),
                    stored: Ghost(stored),
                    in_flight: Ghost(Seq::empty()),
                };
                (t, Action::Read)
            },
        }
    }

    /// The source gave a chunk. Where the body grows beyond the limit the
    /// upload is called off; else a part goes out once one is full.
    pub fn chunk_read(self, chunk: &[u8]) -> (r: (Transfer, Action))
        requires
            self.wf(),
            self.awaiting() == Awaits::Chunk,
            chunk@.len() + PART_SIZE <= isize::MAX,
        ensures
            self.takes_in(r, chunk@),
    {
        let Transfer { state, limit, read, stored, in_flight } = self;
        match state {
            State::Reading(upload) => {
                let mut u: Upload = upload;
                match u.receive(chunk) {
                    Ok(()) => Self::go_on(limit, u),
                    Err(e) => {
                        let t: Transfer = Transfer {
                            state: State::Reading(u),
                            limit,
                            read,
                            stored,
                            in_flight,
                        };
                        t.call_off(e)
                    },
                }
            },
            state => (Transfer { state, limit, read, stored, in_flight }, Action::Read),
        }
    }

    /// The source gave all it had: what is left goes out as the last part. A
    /// body without bytes is one empty part.
    pub fn source_ended(self) -> (r: (Transfer, Action))
        requires
            self.wf(),
            self.awaiting() == Awaits::Chunk,
        ensures
            self.comes_to_its_end(r),
    {
        let Transfer { state, limit, read, stored, in_flight } = self;
        match state {
            State::Reading(upload) => {
                proof {
                    upload.bytes_are_accounted_for();
                    assert(upload.pending().len() == 0 ==> concat(upload.parts())
                        + upload.pending() == concat(upload.parts()));
                }
                let total: u64 = upload.total();
                match upload.finish() {
                    Some((number, part)) => {
                        let t: Transfer = Transfer {
                            state: State::SendingLast { number, total },
                            limit,
                            read,
                            stored,
                            in_flight: Ghost(frozen_bytes(part)),
                        };
                        (t, Action::Send(number, part))
                    },
                    None => {
                        let t: Transfer = Transfer {
                            state: State::Completing { total },
                            limit,
                            read,
                            stored,
                            in_flight,
                        };
                        (t, Action::Complete)
                    },
                }
            },
            state => (Transfer { state, limit, read, stored, in_flight }, Action::Read),
        }
    }

    /// The source failed: the upload is called off.
    pub fn source_failed(self, reason: StorageError) -> (r: (Transfer, Action))
        requires
            self.wf(),
            self.awaiting() == Awaits::Chunk,
        ensures
            Self::called_off(r),
            r.0.failure() == Some(reason),
    {
        self.call_off(reason)
    }

    /// The store took the part: the next one goes out, or the source is read
    /// on, or, after the last, the parts are put together.
    pub fn part_stored(self) -> (r: (Transfer, Action))
        requires
            self.wf(),
            self.awaiting() == Awaits::Part,
        ensures
            self.goes_on_after_a_part(r),
    {
        let Transfer { state, limit, read, stored, in_flight } = self;
        match state {
            State::Sending(upload) => Self::go_on(limit, upload),
            State::SendingLast { number: _, total } => {
                proof {
                    let all = stored@.push(in_flight@);
                    assert(all.drop_last() =~= stored@);
                    assert(concat(all) == concat(stored@) + in_flight@);
                    assert(in_flight@.len() == 0 ==> concat(stored@).len() == 0);
                }
                let t: Transfer = Transfer {
                    state: State::Completing { total },
                    limit,
                    read,
                    stored: Ghost(stored@.push(in_flight@)),
                    in_flight: Ghost(Seq::empty()),
                };
                (t, Action::Complete)
            },
            state => (Transfer { state, limit, read, stored, in_flight }, Action::Read),
        }
    }

    /// The store did not take the part numbered `number`: the upload is called
    /// off.
    pub fn part_refused(self, number: i32, detail: &str) -> (r: (Transfer, Action))
        requires
            self.wf(),
            self.awaiting() == Awaits::Part,
            number == self.stored().len() + 1,
        ensures
            Self::called_off(r),
            r.0.failure() matches Some(StorageError::S3(m)) && m@ == "upload_part "@ + int_text(
                number as int,
            ) + ": "@ + detail@,
    {
        self.call_off(part_error(number, detail))
    }

    /// The store put the parts together: the body is stored.
    pub fn completed(self) -> (r: (Transfer, Action))
        requires
            self.wf(),
            self.awaiting() == Awaits::Completion,
        ensures
            r.0.wf(),
            r.0.awaiting() == Awaits::Nothing,
            r.1 matches Action::Finished(total) && total == self.read().len(),
    {
        let Transfer { state, limit, read, stored, in_flight } = self;
        match state {
            State::Completing { total } => (
                Transfer { state: State::Ended, limit, read, stored, in_flight },
                Action::Finished(total),
            ),
            state => (Transfer { state, limit, read, stored, in_flight }, Action::Read),
        }
    }

    /// The store did not put the parts together: the upload is called off.
    pub fn completion_refused(self, detail: &str) -> (r: (Transfer, Action))
        requires
            self.wf(),
            self.awaiting() == Awaits::Completion,
        ensures
            Self::called_off(r),
            r.0.failure() matches Some(StorageError::S3(m)) && m@ == "complete_multipart_upload"@
                + ": "@ + detail@,
    {
        self.call_off(s3_error("complete_multipart_upload", detail))
    }

    /// The store was asked to forget the upload, whatever it said: the transfer
    /// failed for the reason it was called off. This is the only way to fail
    /// once an upload was begun.
    pub fn aborted(self) -> (r: (Transfer, Action))
        requires
            self.wf(),
            self.awaiting() == Awaits::Abort,
        ensures
            r.0.wf(),
            r.0.awaiting() == Awaits::Nothing,
            r.1 matches Action::Failed(e) && Some(e) == self.failure(),
    {
        let Transfer { state, limit, read, stored, in_flight } = self;
        match state {
            State::Aborting(e) => (
                Transfer { state: State::Ended, limit, read, stored, in_flight },
                Action::Failed(e),
            ),
            state => (Transfer { state, limit, read, stored, in_flight }, Action::Read),
        }
    }
}

/// Whether every part is full.
pub open spec fn all_full(parts: Seq<Seq<u8>>) -> bool {
    forall|i: int| 0 <= i < parts.len() ==> (#[trigger] parts[i]).len() == PART_SIZE
}

} // verus!
