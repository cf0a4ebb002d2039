//! The executable worker queue.
use crate::model::{accepts, appends, QueueState};
use std::collections::VecDeque;
use vstd::prelude::*;

verus! {

/// A queue that passes each input through a transformation on a single worker
/// and keeps the results until they are collected.
///
/// The worker is a run loop that belongs to the queue. `enque` and `enque_vec`
/// start it when none is active; it advances when the owner calls `step`, `run`
/// or `join`, and it exits when it finds the input buffer empty.
pub struct BackgroundWorker<Input, Output, F> {
    /// The transformation, fixed when the queue is made.
    function: F,
    /// Whether the handle slot holds the handle of a spawned worker.
    thread_handle: bool,
    /// The completed outputs.
    outqueue: VecDeque<Output>,
    /// The pending inputs.
    inqueue: VecDeque<Input>,
    /// True when the queue is made and whenever a worker has exited, false
    /// while one is active.
    thread_dead: bool,
}

impl<Input, Output, F> View for BackgroundWorker<Input, Output, F> {
    type V = QueueState<Input, Output>;

    closed spec fn view(&self) -> QueueState<Input, Output> {
        QueueState {
            input: self.inqueue@,
            output: self.outqueue@,
            dead: self.thread_dead,
            handle: self.thread_handle,
        }
    }
}

impl<Input, Output, F: Fn(Input) -> Output> BackgroundWorker<Input, Output, F> {
    /// The transformation that this queue applies.
    pub closed spec fn function(&self) -> F {
        self.function
    }

    /// Makes a queue with empty buffers and no worker. None is started before
    /// the first input arrives.
    pub fn new(func: F) -> (worker: Self)
        ensures
            worker.function() == func,
            worker@ == QueueState::<Input, Output>::idle(),
    {
        BackgroundWorker {
            function: func,
            outqueue: VecDeque::new(),
            inqueue: VecDeque::new(),
            thread_handle: false,
            thread_dead: true,
        }
    }

    /// Removes and returns the oldest output, or `None` when none is ready. It
    /// never waits for the worker.
    pub fn pop(&mut self) -> (value: Option<Output>)
        ensures
            final(self).function() == old(self).function(),
            value == old(self)@.head(),
            final(self)@ == old(self)@.pop(),
    {
        self.outqueue.pop_front()
    }

    /// Starts a worker and records its handle.
    fn create_thread(&mut self)
        ensures
            final(self).function() == old(self).function(),
            final(self)@ == (QueueState { dead: false, handle: true, ..old(self)@ }),
    {
        self.thread_dead = false;
        self.thread_handle = true;
    }

    /// Starts a worker when none is active.
    fn spawn_thread_if_dead(&mut self)
        ensures
            final(self).function() == old(self).function(),
            final(self)@ == old(self)@.spawn_if_dead(),
    {
        if self.thread_dead {
            self.create_thread();
        }
    }

    /// Appends one input behind those pending and starts a worker when none is
    /// active.
    pub fn enque(&mut self, value: Input)
        ensures
            final(self).function() == old(self).function(),
            final(self)@ == old(self)@.enque(value),
    {
        self.inqueue.push_back(value);
        self.spawn_thread_if_dead();
    }

    /// The worker looks for its next input: the oldest pending input is
    /// removed and returned, or, with none pending, the worker exits and the
    /// queue is marked dead.
    pub fn take(&mut self) -> (value: Option<Input>)
        ensures
            final(self).function() == old(self).function(),
            value == old(self)@.next(),
            final(self)@ == old(self)@.take(),
    {
        let value = self.inqueue.pop_front();
        if value.is_none() {
            self.thread_dead = true;
        }
        value
    }

    /// The worker appends one result behind the outputs already there.
    pub fn put(&mut self, value: Output)
        ensures
            final(self).function() == old(self).function(),
            final(self)@ == old(self)@.put(value),
    {
        self.outqueue.push_back(value);
    }

    /// One iteration of the worker's run loop: the oldest pending input is
    /// transformed and its result appended to the outputs, or, with none
    /// pending, the worker exits. Returns whether an input was processed.
    /// The transformation must accept the input that is processed.
    pub fn step(&mut self) -> (worked: bool)
        requires
            old(self)@.input.len() > 0 ==> old(self).function().requires((old(self)@.input[0],)),
        ensures
            final(self).function() == old(self).function(),
            worked == (old(self)@.input.len() > 0),
            old(self)@.stepped(final(self)@, old(self).function()),
    {
        match self.take() {
            Some(data) => {
                let result = (self.function)(data);
                self.put(result);
                true
            },
            None => false,
        }
    }

    /// The worker's run loop: processes the pending inputs in order until none
    /// is left, then exits. The transformation must accept each of them.
    pub fn run(&mut self)
        requires
            accepts(old(self).function(), old(self)@.input),
        ensures
            final(self).function() == old(self).function(),
            old(self)@.ran(final(self)@, old(self).function()),
    {
        let ghost done: int = 0;
        while self.step()
            invariant
                self.function() == old(self).function(),
                accepts(self.function(), self@.input),
                0 <= done <= old(self)@.input.len(),
                self@.input == old(self)@.input.skip(done),
                self@.handle == old(self)@.handle,
                appends(
                    self.function(),
                    old(self)@.output,
                    old(self)@.input.take(done),
                    self@.output,
                ),
            decreases self@.input.len(),
        {
            proof {
                done = done + 1;
            }
        }
        proof {
            assert(self@.input =~= Seq::<Input>::empty());
        }
    }

    /// Waits for the worker: when one is alive its handle is taken and the
    /// worker runs to its end, so that every input enqueued before has its
    /// output in the output buffer. With no worker alive nothing happens. The
    /// transformation must accept the inputs that the worker will process.
    pub fn join(&mut self)
        requires
            !old(self)@.dead && old(self)@.handle ==> accepts(
                old(self).function(),
                old(self)@.input,
            ),
        ensures
            final(self).function() == old(self).function(),
            old(self)@.joined(final(self)@, old(self).function()),
    {
        if !self.thread_dead {
            let handle = self.thread_handle;
            self.thread_handle = false;
            if handle {
                self.run();
            }
        }
    }

    /// Fills a destination from the output buffer: one pop is tried for each
    /// slot in order, a slot is overwritten only where its pop gave a value,
    /// and the number of slots overwritten is returned.
    pub fn pop_vec(&mut self, buffer: &mut Vec<Output>) -> (num_successful: usize)
        ensures
            final(self).function() == old(self).function(),
            num_successful == old(self)@.fill_count(old(buffer)@.len()),
            final(buffer)@ == old(self)@.fill(old(buffer)@),
            final(self)@ == old(self)@.drain(num_successful as nat),
    {
        let mut num_successful: usize = 0;
        let slots = buffer.len();
        for i in 0..slots
            invariant
                self.function() == old(self).function(),
                slots == old(buffer)@.len(),
                num_successful == old(self)@.fill_count(i as nat),
                buffer@ =~= old(self)@.output.take(num_successful as int) + old(buffer)@.skip(
                    num_successful as int,
                ),
                self@.input == old(self)@.input,
                self@.dead == old(self)@.dead,
                self@.handle == old(self)@.handle,
                self@.output =~= old(self)@.output.skip(num_successful as int),
        {
            if let Some(data) = self.pop() {
                buffer[i] = data;
                num_successful += 1;
            }
        }
        num_successful
    }

    /// Appends a batch of inputs behind those pending, in the batch's order,
    /// and starts a worker when none is active, once for the whole batch.
    pub fn enque_vec(&mut self, values: Vec<Input>)
        ensures
            final(self).function() == old(self).function(),
            final(self)@ == old(self)@.enque_vec(values@),
    {
        let ghost items = values@;
        for value in batch: values
            invariant
                self.function() == old(self).function(),
                batch.seq() == items,
                self@.input =~= old(self)@.input + items.take(batch.index()),
                self@.output == old(self)@.output,
                self@.dead == old(self)@.dead,
                self@.handle == old(self)@.handle,
        {
            self.inqueue.push_back(value);
        }
        assert(items.take(items.len() as int) =~= items);
        self.spawn_thread_if_dead();
    }

    /// Whether no worker is active.
    pub fn is_dead(&self) -> (dead: bool)
        ensures
            dead == self@.dead,
    {
        self.thread_dead
    }

    /// The number of inputs that wait for the worker.
    pub fn pending(&self) -> (count: usize)
        ensures
            count == self@.input.len(),
    {
        self.inqueue.len()
    }

    /// The number of outputs that wait to be collected.
    pub fn ready(&self) -> (count: usize)
        ensures
            count == self@.output.len(),
    {
        self.outqueue.len()
    }
}

} // verus!
