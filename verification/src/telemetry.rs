use vstd::prelude::*;

verus! {

/// Log records that wait to be shipped to the log server.
///
/// Records are shipped newest first: a flush hands them out in the reverse of
/// the order they came in.
pub struct LogBuffer {
    entries: Vec<Vec<u8>>,
}

/// The bytes of each record, in arrival order.
pub open spec fn records_view(entries: Seq<Vec<u8>>) -> Seq<Seq<u8>> {
    entries.map_values(|e: Vec<u8>| e@)
}

impl View for LogBuffer {
    type V = Seq<Seq<u8>>;

    closed spec fn view(&self) -> Seq<Seq<u8>> {
        records_view(self.entries@)
    }
}

impl LogBuffer {
    /// A buffer with no record in it.
    pub fn new() -> (buffer: Self)
        ensures
            buffer@ == Seq::<Seq<u8>>::empty(),
    {
        let buffer = LogBuffer { entries: Vec::new() };
        proof {
            assert(buffer@ =~= Seq::<Seq<u8>>::empty());
        }
        buffer
    }

    /// The number of waiting records.
    pub fn len(&self) -> (n: usize)
        ensures
            n == self@.len(),
    {
        proof {
            assert(self@.len() == self.entries@.len());
        }
        self.entries.len()
    }

    /// Adds a record after all the waiting ones.
    pub fn push(&mut self, record: Vec<u8>)
        ensures
            final(self)@ == old(self)@.push(record@),
    {
        let ghost before = self.entries@;
        self.entries.push(record);
        proof {
            assert(records_view(self.entries@) =~= records_view(before).push(record@));
        }
    }

    /// Takes out the newest waiting record, if there is one.
    pub fn pop(&mut self) -> (record: Option<Vec<u8>>)
        ensures
            old(self)@.len() == 0 ==> record is None && final(self)@ == old(self)@,
            old(self)@.len() > 0 ==> (record matches Some(r) && r@ == old(self)@.last()
                && final(self)@ == old(self)@.drop_last()),
    {
        let ghost before = self.entries@;
        let record = self.entries.pop();
        proof {
            if before.len() > 0 {
                assert(records_view(self.entries@) =~= records_view(before).drop_last());
            }
        }
        record
    }

    /// Takes out every waiting record, newest first, and leaves the buffer empty.
    pub fn drain_for_sending(&mut self) -> (batch: Vec<Vec<u8>>)
        ensures
            records_view(batch@) == old(self)@.reverse(),
            batch@.len() == old(self)@.len(),
            forall|i: int|
                0 <= i < batch@.len() ==> #[trigger] batch@[i]@ == old(self)@[old(self)@.len() - 1
                    - i],
            final(self)@ == Seq::<Seq<u8>>::empty(),
    {
        let ghost start = self@;
        let mut batch: Vec<Vec<u8>> = Vec::new();
        loop
            invariant_except_break
                start.len() == self@.len() + batch@.len(),
                self@ == start.subrange(0, self@.len() as int),
                forall|i: int|
                    0 <= i < batch@.len() ==> #[trigger] batch@[i]@ == start[start.len() - 1 - i],
            ensures
                self@.len() == 0,
                start.len() == batch@.len(),
                forall|i: int|
                    0 <= i < batch@.len() ==> #[trigger] batch@[i]@ == start[start.len() - 1 - i],
            decreases self@.len(),
        {
            match self.pop() {
                Some(record) => {
                    batch.push(record);
                },
                None => {
                    break ;
                },
            }
        }
        proof {
            assert(records_view(batch@) =~= start.reverse());
            assert(self@ =~= Seq::<Seq<u8>>::empty());
        }
        batch
    }
}

/// What the log shipping task does after a round of sending.
#[derive(Clone, Copy, Debug, PartialEq, Eq, Structural)]
pub enum FlusherNext {
    /// The service is shutting down: the task ends.
    Stop,
    /// Wait this many milliseconds, then send again.
    Sleep(u64),
}

/// One round of the log shipping task: the records to send, in sending order, and
/// what the task does once they are sent.
pub struct FlushRound {
    pub batch: Vec<Vec<u8>>,
    pub next: FlusherNext,
}

/// How long the log shipping task waits between rounds, in milliseconds.
pub open spec fn flusher_pause_ms() -> u64 {
    250
}

/// A round of the log shipping task over `waiting`: every waiting record, newest
/// first; then an empty buffer; then a stop when the service is shutting down and
/// a pause otherwise.
pub open spec fn flush_round_outcome(waiting: Seq<Seq<u8>>, shutting_down: bool) -> (
    Seq<Seq<u8>>,
    Seq<Seq<u8>>,
    FlusherNext,
) {
    (
        waiting.reverse(),
        Seq::empty(),
        if shutting_down {
            FlusherNext::Stop
        } else {
            FlusherNext::Sleep(flusher_pause_ms())
        },
    )
}

impl LogBuffer {
    /// One round of the log shipping task: takes out every waiting record, newest
    /// first, and decides whether the task stops after sending them (the service is
    /// shutting down) or pauses before the next round.
    pub fn flush_round(&mut self, shutting_down: bool) -> (round: FlushRound)
        ensures
            (records_view(round.batch@), final(self)@, round.next) == flush_round_outcome(
                old(self)@,
                shutting_down,
            ),
    {
        let batch = self.drain_for_sending();
        let next = if shutting_down {
            FlusherNext::Stop
        } else {
            FlusherNext::Sleep(250)
        };
        FlushRound { batch, next }
    }
}

/// The log shipping task stops only after a round that sends every record that was
/// waiting, each exactly once, and leaves nothing behind; a round that does not
/// stop pauses for 250 ms.
pub proof fn lemma_flusher_stops_after_sending_everything(
    waiting: Seq<Seq<u8>>,
    shutting_down: bool,
)
    ensures
        ({
            let (sent, left, next) = flush_round_outcome(waiting, shutting_down);
            &&& next == FlusherNext::Stop <==> shutting_down
            &&& next != FlusherNext::Stop ==> next == FlusherNext::Sleep(250)
            &&& left.len() == 0
            &&& sent.len() == waiting.len()
            &&& forall|i: int|
                0 <= i < waiting.len() ==> #[trigger] sent[waiting.len() - 1 - i] == waiting[i]
        }),
{
}

/// A flush after a push sends the record pushed last first, followed by the
/// records that were already waiting, newest first: with `push` appending and
/// `drain_for_sending` reversing, draining `waiting` after pushing `record` gives
/// `record` and then the drain of `waiting`.
pub proof fn lemma_flush_sends_newest_first(waiting: Seq<Seq<u8>>, record: Seq<u8>)
    ensures
        waiting.push(record).reverse() == seq![record] + waiting.reverse(),
{
    assert(waiting.push(record).reverse() =~= seq![record] + waiting.reverse());
}

} // verus!
