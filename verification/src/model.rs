//! The abstract state of a worker queue and the transitions between such
//! states. Every contract of the executable queue is stated over these.
use vstd::prelude::*;

verus! {

/// What a worker queue is at one instant.
pub ghost struct QueueState<I, O> {
    /// The pending inputs, the next one to be processed first.
    pub input: Seq<I>,
    /// The completed outputs, the next one to be collected first.
    pub output: Seq<O>,
    /// The liveness flag: true exactly when no worker is active.
    pub dead: bool,
    /// Whether the handle slot holds the handle of a spawned worker.
    pub handle: bool,
}

/// `f` may be called on each of `inputs`.
pub open spec fn accepts<I, O, F: Fn(I) -> O>(f: F, inputs: Seq<I>) -> bool {
    forall|k: int| 0 <= k < inputs.len() ==> f.requires((#[trigger] inputs[k],))
}

/// `after` is `before` with a possible result of applying `f` to each of
/// `inputs` in turn appended behind it.
pub open spec fn appends<I, O, F: Fn(I) -> O>(
    f: F,
    before: Seq<O>,
    inputs: Seq<I>,
    after: Seq<O>,
) -> bool {
    &&& after.len() == before.len() + inputs.len()
    &&& forall|j: int|
        0 <= j < after.len() ==> if j < before.len() {
            #[trigger] after[j] == before[j]
        } else {
            f.ensures((inputs[j - before.len()],), after[j])
        }
}

/// `f` is deterministic, and `g` is the mapping that it computes.
pub open spec fn computes<I, O, F: Fn(I) -> O>(f: F, g: spec_fn(I) -> O) -> bool {
    forall|i: I, o: O| #[trigger] f.ensures((i,), o) ==> o == g(i)
}

impl<I, O> QueueState<I, O> {
    /// A freshly made queue: both buffers empty, no worker, no handle.
    pub open spec fn idle() -> Self {
        QueueState { input: Seq::empty(), output: Seq::empty(), dead: true, handle: false }
    }

    /// What holds of every state that the operations can reach: a live worker
    /// has its handle recorded, and no input is pending without a live worker.
    pub open spec fn consistent(self) -> bool {
        &&& !self.dead ==> self.handle
        &&& self.dead ==> self.input.len() == 0
    }

    /// The spawn-if-dead protocol: when no worker is active, one is started
    /// and its handle recorded; otherwise nothing changes.
    pub open spec fn spawn_if_dead(self) -> Self {
        if self.dead {
            QueueState { dead: false, handle: true, ..self }
        } else {
            self
        }
    }

    /// One input is appended, then the spawn check is made.
    pub open spec fn enque(self, value: I) -> Self {
        QueueState { input: self.input.push(value), ..self }.spawn_if_dead()
    }

    /// A batch is appended in its order, then the spawn check is made once.
    pub open spec fn enque_vec(self, values: Seq<I>) -> Self {
        QueueState { input: self.input + values, ..self }.spawn_if_dead()
    }

    /// The output that the next `pop` returns, if there is one.
    pub open spec fn head(self) -> Option<O> {
        if self.output.len() > 0 {
            Some(self.output[0])
        } else {
            None
        }
    }

    /// The state after the first `n` outputs have been collected.
    pub open spec fn drain(self, n: nat) -> Self {
        QueueState { output: self.output.skip(n as int), ..self }
    }

    /// The state after one `pop`.
    pub open spec fn pop(self) -> Self {
        if self.output.len() > 0 {
            self.drain(1)
        } else {
            self
        }
    }

    /// How many slots a batch pop into `slots` slots replaces.
    pub open spec fn fill_count(self, slots: nat) -> nat {
        if slots <= self.output.len() {
            slots
        } else {
            self.output.len()
        }
    }

    /// The destination after a batch pop: its first slots hold the collected
    /// outputs in order, the others what they held before.
    pub open spec fn fill(self, buffer: Seq<O>) -> Seq<O> {
        let n = self.fill_count(buffer.len()) as int;
        self.output.take(n) + buffer.skip(n)
    }

    /// The input that the worker takes next, if one is pending.
    pub open spec fn next(self) -> Option<I> {
        if self.input.len() > 0 {
            Some(self.input[0])
        } else {
            None
        }
    }

    /// The state after the worker looked for its next input: the head of the
    /// input buffer is gone, or, with none pending, the worker has exited.
    pub open spec fn take(self) -> Self {
        if self.input.len() > 0 {
            QueueState { input: self.input.skip(1), ..self }
        } else {
            QueueState { dead: true, ..self }
        }
    }

    /// The state after the worker appended one result.
    pub open spec fn put(self, value: O) -> Self {
        QueueState { output: self.output.push(value), ..self }
    }

    /// `post` is a state that one iteration of the worker's run loop with the
    /// transformation `f` can lead to: the oldest pending input is gone and a
    /// result of `f` on it is the newest output, or, with none pending, the
    /// worker has exited.
    pub open spec fn stepped<F: Fn(I) -> O>(self, post: Self, f: F) -> bool {
        if self.input.len() > 0 {
            &&& post == self.take().put(post.output.last())
            &&& f.ensures((self.input[0],), post.output.last())
        } else {
            post == self.take()
        }
    }

    /// `post` is a state that the worker's run loop with the transformation
    /// `f` can end in: every pending input was processed in order, its result
    /// appended behind the outputs already there, and the worker has exited.
    pub open spec fn ran<F: Fn(I) -> O>(self, post: Self, f: F) -> bool {
        &&& post.input == Seq::<I>::empty()
        &&& post.dead
        &&& post.handle == self.handle
        &&& appends(f, self.output, self.input, post.output)
    }

    /// `post` is a state that `join` can lead to: with no worker alive nothing
    /// changes; else the handle is taken and the worker awaited.
    pub open spec fn joined<F: Fn(I) -> O>(self, post: Self, f: F) -> bool {
        if self.dead {
            post == self
        } else if self.handle {
            QueueState { handle: false, ..self }.ran(post, f)
        } else {
            post == self
        }
    }
}

} // verus!
