//! Undo/redo command history for scene mutations.
//!
//! Every mutation of a scene is a reversible [`SceneCommand`]. The
//! [`CommandHistory`] keeps a bounded linear undo stack and a redo stack:
//! executing a new command pushes it on the undo stack (dropping the oldest
//! entry when the depth limit is reached) and clears the redo stack; undo moves
//! the newest command to the redo stack; redo moves it back.
use vstd::prelude::*;
use crate::text::{concat2, owned};

verus! {

/// Errors of command execution or of undo/redo.
#[derive(Debug)]
pub enum SceneCommandError {
    /// The command failed to apply; holds a human-readable reason.
    ExecuteError(String),
    /// The command failed to reverse; holds a human-readable reason.
    UndoError(String),
    /// Nothing to undo.
    NothingToUndo,
    /// Nothing to redo.
    NothingToRedo,
}

/// The message shown for an error.
pub open spec fn error_message(e: SceneCommandError) -> Seq<char> {
    match e {
        SceneCommandError::ExecuteError(m) => "command execute failed: "@ + m@,
        SceneCommandError::UndoError(m) => "command undo failed: "@ + m@,
        SceneCommandError::NothingToUndo => "nothing to undo"@,
        SceneCommandError::NothingToRedo => "nothing to redo"@,
    }
}

impl SceneCommandError {
    /// The human-readable message for this error.
    pub fn message(&self) -> (r: String)
        ensures
            r@ == error_message(*self),
    {
        match self {
            SceneCommandError::ExecuteError(m) => concat2("command execute failed: ", m.as_str()),
            SceneCommandError::UndoError(m) => concat2("command undo failed: ", m.as_str()),
            SceneCommandError::NothingToUndo => owned("nothing to undo"),
            SceneCommandError::NothingToRedo => owned("nothing to redo"),
        }
    }
}

/// A reversible mutation of a scene of type `S`.
pub trait SceneCommand<S>: Sized + Send + Sync {
    /// The label that `label` returns; a command type that does not say
    /// promises none.
    open spec fn label_view(&self) -> Seq<char> {
        arbitrary()
    }

    /// The scenes the command can be applied to and reversed on; by default,
    /// every scene.
    open spec fn accepts(&self, scene: S) -> bool {
        true
    }

    /// What `execute` does: from `before` it may leave the scene `after`, itself
    /// as `done` and the outcome `r`. A command type that does not say
    /// promises nothing.
    open spec fn execute_spec(
        &self,
        done: Self,
        before: S,
        after: S,
        r: Result<(), SceneCommandError>,
    ) -> bool {
        true
    }

    /// What `undo` does, in the same terms; by default nothing is promised.
    open spec fn undo_spec(
        &self,
        done: Self,
        before: S,
        after: S,
        r: Result<(), SceneCommandError>,
    ) -> bool {
        true
    }

    /// Short human-readable label for the Undo/Redo menu.
    fn label(&self) -> (r: &str)
        ensures
            r@ == self.label_view(),
    ;

    /// Applies the command to `scene`; the command keeps its label.
    fn execute(&mut self, scene: &mut S) -> (r: Result<(), SceneCommandError>)
        requires
            old(self).accepts(*old(scene)),
        ensures
            old(self).execute_spec(*final(self), *old(scene), *final(scene), r),
            final(self).label_view() == old(self).label_view(),
    ;

    /// Reverses the most recent `execute`; the command keeps its label.
    fn undo(&mut self, scene: &mut S) -> (r: Result<(), SceneCommandError>)
        requires
            old(self).accepts(*old(scene)),
        ensures
            old(self).undo_spec(*final(self), *old(scene), *final(scene), r),
            final(self).label_view() == old(self).label_view(),
    ;
}

/// The undo stack after making room for one more entry under `max_depth`:
/// the oldest entry is dropped when the stack is full.
pub open spec fn make_room<C>(s: Seq<C>, max_depth: nat) -> Seq<C> {
    if s.len() >= max_depth {
        s.drop_first()
    } else {
        s
    }
}

/// Labels of `s`, newest first, at most `limit` of them.
pub open spec fn newest_labels<S, C: SceneCommand<S>>(s: Seq<C>, limit: nat) -> Seq<Seq<char>> {
    let n = if limit < s.len() {
        limit
    } else {
        s.len()
    };
    Seq::new(n, |i: int| s[s.len() - 1 - i].label_view())
}

/// The label of the newest command of `s`, if any.
pub open spec fn newest_label<S, C: SceneCommand<S>>(s: Seq<C>) -> Option<Seq<char>> {
    if s.len() > 0 {
        Some(s.last().label_view())
    } else {
        None
    }
}

/// An optional borrowed text as text.
pub open spec fn label_opt_view(o: Option<&str>) -> Option<Seq<char>> {
    match o {
        Some(l) => Some(l@),
        None => None,
    }
}

/// What `execute` of the history does with `cmd`, from history `h0` and scene
/// `s0` to `h1` and `s1` with outcome `r`: the command is applied; on success
/// it becomes the newest undoable command (after room is made under the depth
/// limit) and nothing is left to redo; on failure the history is unchanged.
pub open spec fn execute_outcome<S, C: SceneCommand<S>>(
    h0: CommandHistory<C>,
    cmd: C,
    s0: S,
    h1: CommandHistory<C>,
    s1: S,
    r: Result<(), SceneCommandError>,
) -> bool {
    &&& h1.wf()
    &&& h1.depth_limit() == h0.depth_limit()
    &&& exists|done: C|
        {
            &&& #[trigger] cmd.execute_spec(done, s0, s1, r)
            &&& done.label_view() == cmd.label_view()
            &&& r is Ok ==> h1.undo_view() == make_room(h0.undo_view(), h0.depth_limit()).push(done)
        }
    &&& r is Ok ==> h1.redo_view() == Seq::<C>::empty()
    &&& r is Err ==> h1.undo_view() == h0.undo_view() && h1.redo_view() == h0.redo_view()
}

/// What `undo` of the history does: with nothing to undo it fails with
/// `NothingToUndo` and changes nothing; otherwise the newest command leaves
/// the undo stack and is reversed, and on success goes on the redo stack.
pub open spec fn undo_outcome<S, C: SceneCommand<S>>(
    h0: CommandHistory<C>,
    s0: S,
    h1: CommandHistory<C>,
    s1: S,
    r: Result<(), SceneCommandError>,
) -> bool {
    &&& h1.wf()
    &&& h1.depth_limit() == h0.depth_limit()
    &&& h0.undo_view().len() == 0 ==> {
        &&& r == Err::<(), SceneCommandError>(SceneCommandError::NothingToUndo)
        &&& h1.undo_view() == h0.undo_view()
        &&& h1.redo_view() == h0.redo_view()
        &&& s1 == s0
    }
    &&& h0.undo_view().len() > 0 ==> {
        &&& h1.undo_view() == h0.undo_view().drop_last()
        &&& exists|done: C|
            {
                &&& #[trigger] h0.undo_view().last().undo_spec(done, s0, s1, r)
                &&& done.label_view() == h0.undo_view().last().label_view()
                &&& r is Ok ==> h1.redo_view() == h0.redo_view().push(done)
            }
        &&& r is Err ==> h1.redo_view() == h0.redo_view()
    }
}

/// What `redo` of the history does: with nothing to redo it fails with
/// `NothingToRedo` and changes nothing; otherwise the newest undone command
/// leaves the redo stack and is applied again, and on success goes back on the
/// undo stack.
pub open spec fn redo_outcome<S, C: SceneCommand<S>>(
    h0: CommandHistory<C>,
    s0: S,
    h1: CommandHistory<C>,
    s1: S,
    r: Result<(), SceneCommandError>,
) -> bool {
    &&& h1.wf()
    &&& h1.depth_limit() == h0.depth_limit()
    &&& h0.redo_view().len() == 0 ==> {
        &&& r == Err::<(), SceneCommandError>(SceneCommandError::NothingToRedo)
        &&& h1.undo_view() == h0.undo_view()
        &&& h1.redo_view() == h0.redo_view()
        &&& s1 == s0
    }
    &&& h0.redo_view().len() > 0 ==> {
        &&& h1.redo_view() == h0.redo_view().drop_last()
        &&& exists|done: C|
            {
                &&& #[trigger] h0.redo_view().last().execute_spec(done, s0, s1, r)
                &&& done.label_view() == h0.redo_view().last().label_view()
                &&& r is Ok ==> h1.undo_view() == h0.undo_view().push(done)
            }
        &&& r is Err ==> h1.undo_view() == h0.undo_view()
    }
}

/// Bounded linear undo/redo history.
pub struct CommandHistory<C> {
    undo_stack: Vec<C>,
    redo_stack: Vec<C>,
    max_depth: usize,
}

impl<C> CommandHistory<C> {
    /// Commands that can be undone; the last one is undone first.
    pub closed spec fn undo_view(&self) -> Seq<C> {
        self.undo_stack@
    }

    /// Commands that can be redone; the last one is redone first.
    pub closed spec fn redo_view(&self) -> Seq<C> {
        self.redo_stack@
    }

    /// The depth limit given at construction.
    pub closed spec fn depth_limit(&self) -> nat {
        self.max_depth as nat
    }

    /// The history never holds more commands, undoable and redoable together,
    /// than its depth limit.
    pub open spec fn wf(&self) -> bool {
        self.undo_view().len() + self.redo_view().len() <= self.depth_limit()
    }

    /// Creates an empty history with the given depth limit.
    pub fn new(max_depth: usize) -> (h: Self)
        ensures
            h.wf(),
            h.undo_view() == Seq::<C>::empty(),
            h.redo_view() == Seq::<C>::empty(),
            h.depth_limit() == max_depth,
    {
        CommandHistory {
            undo_stack: Vec::with_capacity(if max_depth < 64 {
                max_depth
            } else {
                64
            }),
            redo_stack: Vec::new(),
            max_depth,
        }
    }

    /// Stores a command that has just been executed: drops the redo stack, makes
    /// room under the depth limit, and pushes the command on the undo stack.
    pub fn record_executed(&mut self, cmd: C)
        requires
            old(self).wf(),
            old(self).depth_limit() > 0,
        ensures
            final(self).wf(),
            final(self).depth_limit() == old(self).depth_limit(),
            final(self).redo_view() == Seq::<C>::empty(),
            final(self).undo_view() == make_room(
                old(self).undo_view(),
                old(self).depth_limit(),
            ).push(cmd),
    {
        self.redo_stack.clear();
        if self.undo_stack.len() >= self.max_depth {
            let _ = self.undo_stack.remove(0);
            assert(self.undo_stack@ =~= old(self).undo_stack@.drop_first());
        }
        self.undo_stack.push(cmd);
    }

    /// Stores a command that has just been undone on the redo stack.
    pub fn record_undone(&mut self, cmd: C)
        requires
            old(self).undo_view().len() + old(self).redo_view().len() < old(self).depth_limit(),
        ensures
            final(self).wf(),
            final(self).depth_limit() == old(self).depth_limit(),
            final(self).undo_view() == old(self).undo_view(),
            final(self).redo_view() == old(self).redo_view().push(cmd),
    {
        self.redo_stack.push(cmd);
    }

    /// Stores a command that has just been redone on the undo stack.
    pub fn record_redone(&mut self, cmd: C)
        requires
            old(self).undo_view().len() + old(self).redo_view().len() < old(self).depth_limit(),
        ensures
            final(self).wf(),
            final(self).depth_limit() == old(self).depth_limit(),
            final(self).undo_view() == old(self).undo_view().push(cmd),
            final(self).redo_view() == old(self).redo_view(),
    {
        self.undo_stack.push(cmd);
    }

    /// Executes `cmd` against `scene`; on success stores it as the newest undoable
    /// command (see `record_executed`). On failure the history is unchanged and
    /// the command's error is returned.
    pub fn execute<S>(&mut self, cmd: C, scene: &mut S) -> (r: Result<(), SceneCommandError>)
        where C: SceneCommand<S>
        requires
            old(self).wf(),
            old(self).depth_limit() > 0,
            cmd.accepts(*old(scene)),
        ensures
            execute_outcome(*old(self), cmd, *old(scene), *final(self), *final(scene), r),
    {
        let mut cmd = cmd;
        let ghost original = cmd;
        let r = cmd.execute(scene);
        let ghost done = cmd;
        if r.is_ok() {
            self.record_executed(cmd);
        }
        assert(original.execute_spec(done, *old(scene), *scene, r));
        r
    }

    /// Undoes the newest command: it leaves the undo stack and, if its own undo
    /// succeeds, goes on the redo stack; if its undo fails it is dropped and its
    /// error returned. With nothing to undo, returns `NothingToUndo` and changes
    /// nothing.
    pub fn undo<S>(&mut self, scene: &mut S) -> (r: Result<(), SceneCommandError>)
        where C: SceneCommand<S>
        requires
            old(self).wf(),
            old(self).undo_view().len() > 0 ==> old(self).undo_view().last().accepts(
                *old(scene),
            ),
        ensures
            undo_outcome(*old(self), *old(scene), *final(self), *final(scene), r),
    {
        match self.undo_stack.pop() {
            None => Err(SceneCommandError::NothingToUndo),
            Some(cmd) => {
                let mut cmd = cmd;
                let ghost original = cmd;
                assert(original == old(self).undo_view().last());
                let r = cmd.undo(scene);
                let ghost done = cmd;
                if r.is_ok() {
                    self.record_undone(cmd);
                }
                assert(original.undo_spec(done, *old(scene), *scene, r));
                r
            },
        }
    }

    /// Redoes the newest undone command: it leaves the redo stack and, if its
    /// execution succeeds, goes on the undo stack; if execution fails it is
    /// dropped and its error returned. With nothing to redo, returns
    /// `NothingToRedo` and changes nothing.
    pub fn redo<S>(&mut self, scene: &mut S) -> (r: Result<(), SceneCommandError>)
        where C: SceneCommand<S>
        requires
            old(self).wf(),
            old(self).redo_view().len() > 0 ==> old(self).redo_view().last().accepts(
                *old(scene),
            ),
        ensures
            redo_outcome(*old(self), *old(scene), *final(self), *final(scene), r),
    {
        match self.redo_stack.pop() {
            None => Err(SceneCommandError::NothingToRedo),
            Some(cmd) => {
                let mut cmd = cmd;
                let ghost original = cmd;
                assert(original == old(self).redo_view().last());
                let r = cmd.execute(scene);
                let ghost done = cmd;
                if r.is_ok() {
                    self.record_redone(cmd);
                }
                assert(original.execute_spec(done, *old(scene), *scene, r));
                r
            },
        }
    }

    /// Label of the command that would be undone next.
    pub fn peek_undo_label<S>(&self) -> (r: Option<&str>)
        where C: SceneCommand<S>
        ensures
            label_opt_view(r) == newest_label::<S, C>(self.undo_view()),
    {
        let n = self.undo_stack.len();
        if n == 0 {
            None
        } else {
            Some(self.undo_stack[n - 1].label())
        }
    }

    /// Label of the command that would be redone next.
    pub fn peek_redo_label<S>(&self) -> (r: Option<&str>)
        where C: SceneCommand<S>
        ensures
            label_opt_view(r) == newest_label::<S, C>(self.redo_view()),
    {
        let n = self.redo_stack.len();
        if n == 0 {
            None
        } else {
            Some(self.redo_stack[n - 1].label())
        }
    }

    /// Is there a command to undo?
    pub fn can_undo(&self) -> (r: bool)
        ensures
            r == (self.undo_view().len() > 0),
    {
        self.undo_stack.len() > 0
    }

    /// Is there a command to redo?
    pub fn can_redo(&self) -> (r: bool)
        ensures
            r == (self.redo_view().len() > 0),
    {
        self.redo_stack.len() > 0
    }

    /// Forgets all undo and redo history.
    pub fn clear(&mut self)
        ensures
            final(self).wf(),
            final(self).depth_limit() == old(self).depth_limit(),
            final(self).undo_view() == Seq::<C>::empty(),
            final(self).redo_view() == Seq::<C>::empty(),
    {
        self.undo_stack.clear();
        self.redo_stack.clear();
    }

    /// Labels of the undoable commands, newest first, at most `limit` of them.
    pub fn undo_labels<S>(&self, limit: usize) -> (r: Vec<&str>)
        where C: SceneCommand<S>
        ensures
            r@.len() == newest_labels::<S, C>(self.undo_view(), limit as nat).len(),
            forall|i: int|
                0 <= i < r@.len() ==> #[trigger] r@[i]@ == newest_labels::<S, C>(
                    self.undo_view(),
                    limit as nat,
                )[i],
    {
        let n = self.undo_stack.len();
        let mut out: Vec<&str> = Vec::new();
        let mut i: usize = 0;
        while i < limit && i < n
            invariant
                n == self.undo_stack@.len(),
                i <= n,
                i <= limit,
                out@.len() == i,
                forall|k: int|
                    0 <= k < i ==> #[trigger] out@[k]@ == self.undo_stack@[n - 1 - k].label_view(),
            decreases n - i,
        {
            out.push(self.undo_stack[n - 1 - i].label());
            i = i + 1;
        }
        assert(i as nat == newest_labels::<S, C>(self.undo_view(), limit as nat).len());
        out
    }
}

impl<C> Default for CommandHistory<C> {
    /// A history with the application's default depth limit of 200.
    fn default() -> (h: Self)
        ensures
            h.wf(),
            h.undo_view() == Seq::<C>::empty(),
            h.redo_view() == Seq::<C>::empty(),
            h.depth_limit() == 200,
    {
        Self::new(200)
    }
}

/// Executing a command and then undoing it, when the history had room for it,
/// leaves the undo stack as it was; the redo stack then holds just the
/// command if its undo succeeded, and nothing if it failed.
pub proof fn lemma_execute_then_undo<S, C: SceneCommand<S>>(
    h0: CommandHistory<C>,
    cmd: C,
    s0: S,
    h1: CommandHistory<C>,
    s1: S,
    h2: CommandHistory<C>,
    s2: S,
    r2: Result<(), SceneCommandError>,
)
    requires
        h0.undo_view().len() < h0.depth_limit(),
        execute_outcome(h0, cmd, s0, h1, s1, Ok(())),
        undo_outcome(h1, s1, h2, s2, r2),
    ensures
        h2.undo_view() == h0.undo_view(),
        h2.redo_view().len() == if r2 is Ok {
            1int
        } else {
            0int
        },
{
    let done = choose|done: C|
        #[trigger] cmd.execute_spec(done, s0, s1, Ok(())) && h1.undo_view() == make_room(
            h0.undo_view(),
            h0.depth_limit(),
        ).push(done);
    assert(h1.undo_view() == h0.undo_view().push(done));
    assert(h1.undo_view().drop_last() =~= h0.undo_view());
}

/// Undoing a command and redoing it (both succeeding) gives back the redo
/// stack as it was and an undo stack of the same length with the same older
/// commands.
pub proof fn lemma_undo_then_redo<S, C: SceneCommand<S>>(
    h0: CommandHistory<C>,
    s0: S,
    h1: CommandHistory<C>,
    s1: S,
    h2: CommandHistory<C>,
    s2: S,
)
    requires
        h0.undo_view().len() > 0,
        undo_outcome(h0, s0, h1, s1, Ok(())),
        redo_outcome(h1, s1, h2, s2, Ok(())),
    ensures
        h2.redo_view() == h0.redo_view(),
        h2.undo_view().len() == h0.undo_view().len(),
        h2.undo_view().drop_last() == h0.undo_view().drop_last(),
{
    let d1 = choose|done: C|
        #[trigger] h0.undo_view().last().undo_spec(done, s0, s1, Ok(()))
            && h1.redo_view() == h0.redo_view().push(done);
    assert(h1.redo_view().drop_last() =~= h0.redo_view());
    let d2 = choose|done: C|
        #[trigger] h1.redo_view().last().execute_spec(done, s1, s2, Ok(()))
            && h2.undo_view() == h1.undo_view().push(done);
    assert(h2.undo_view().drop_last() =~= h1.undo_view());
}

/// Executing a command makes everything that was undone unreachable: nothing
/// is left to redo, whatever was there before; and the command just executed
/// is the next one to undo, under its own label.
pub proof fn lemma_execute_clears_redo<S, C: SceneCommand<S>>(
    h0: CommandHistory<C>,
    cmd: C,
    s0: S,
    h1: CommandHistory<C>,
    s1: S,
)
    requires
        execute_outcome(h0, cmd, s0, h1, s1, Ok(())),
    ensures
        h1.redo_view().len() == 0,
        newest_label::<S, C>(h1.redo_view()) == None::<Seq<char>>,
        h1.undo_view().len() <= h0.depth_limit(),
        h1.undo_view().len() > 0,
        newest_label::<S, C>(h1.undo_view()) == Some(cmd.label_view()),
{
    let done = choose|done: C|
        {
            &&& #[trigger] cmd.execute_spec(done, s0, s1, Ok(()))
            &&& done.label_view() == cmd.label_view()
            &&& h1.undo_view() == make_room(h0.undo_view(), h0.depth_limit()).push(done)
        };
}

/// The undo queries agree in every state: there is a label to peek exactly
/// when there is something to undo, and the one-label list of undo labels is
/// that label alone (empty when there is nothing to undo).
pub proof fn lemma_undo_queries_agree<S, C: SceneCommand<S>>(h: CommandHistory<C>)
    ensures
        newest_label::<S, C>(h.undo_view()) is Some <==> h.undo_view().len() > 0,
        newest_labels::<S, C>(h.undo_view(), 1) == match newest_label::<S, C>(h.undo_view()) {
            Some(l) => seq![l],
            None => Seq::<Seq<char>>::empty(),
        },
{
    if h.undo_view().len() > 0 {
        assert(newest_labels::<S, C>(h.undo_view(), 1) =~= seq![h.undo_view().last().label_view()]);
    } else {
        assert(newest_labels::<S, C>(h.undo_view(), 1) =~= Seq::<Seq<char>>::empty());
    }
}

/// The redo queries agree in every state: there is a label to peek exactly
/// when there is something to redo, and it is the label of the command that
/// the next redo applies.
pub proof fn lemma_redo_queries_agree<S, C: SceneCommand<S>>(h: CommandHistory<C>)
    ensures
        newest_label::<S, C>(h.redo_view()) is Some <==> h.redo_view().len() > 0,
        h.redo_view().len() > 0 ==> newest_label::<S, C>(h.redo_view()) == Some(
            h.redo_view().last().label_view(),
        ),
{
}

/// A successful undo makes the undone command the next one to redo, under the
/// same label: the label offered for redo is the one that was offered for
/// undo, and there is something to redo.
pub proof fn lemma_undone_is_next_redo<S, C: SceneCommand<S>>(
    h0: CommandHistory<C>,
    s0: S,
    h1: CommandHistory<C>,
    s1: S,
)
    requires
        undo_outcome(h0, s0, h1, s1, Ok(())),
    ensures
        h0.undo_view().len() > 0,
        h1.redo_view().len() > 0,
        h1.redo_view().last().label_view() == h0.undo_view().last().label_view(),
        newest_label::<S, C>(h1.redo_view()) == newest_label::<S, C>(h0.undo_view()),
{
    let d = choose|done: C|
        {
            &&& #[trigger] h0.undo_view().last().undo_spec(done, s0, s1, Ok(()))
            &&& done.label_view() == h0.undo_view().last().label_view()
            &&& h1.redo_view() == h0.redo_view().push(done)
        };
}

/// A successful redo makes the redone command the next one to undo, under the
/// same label, and there is something to undo.
pub proof fn lemma_redone_is_next_undo<S, C: SceneCommand<S>>(
    h0: CommandHistory<C>,
    s0: S,
    h1: CommandHistory<C>,
    s1: S,
)
    requires
        redo_outcome(h0, s0, h1, s1, Ok(())),
    ensures
        h0.redo_view().len() > 0,
        h1.undo_view().len() > 0,
        h1.undo_view().last().label_view() == h0.redo_view().last().label_view(),
        newest_label::<S, C>(h1.undo_view()) == newest_label::<S, C>(h0.redo_view()),
{
    let d = choose|done: C|
        {
            &&& #[trigger] h0.redo_view().last().execute_spec(done, s0, s1, Ok(()))
            &&& done.label_view() == h0.redo_view().last().label_view()
            &&& h1.undo_view() == h0.undo_view().push(done)
        };
}

} // verus!
