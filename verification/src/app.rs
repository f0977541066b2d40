use vstd::prelude::*;
use crate::subsystem::Subsystem;

verus! {

/// The state of an application under composition: the subsystems attached to
/// it so far, in the order in which they attached.
///
/// Plugins add to it and never replace it.
#[derive(Debug)]
pub struct App {
    attached: Vec<Subsystem>,
}

impl View for App {
    type V = Seq<Subsystem>;

    closed spec fn view(&self) -> Seq<Subsystem> {
        self.attached@
    }
}

/// The runner attached last in `log`, if any runner is in it.
pub open spec fn last_runner(log: Seq<Subsystem>) -> Option<Subsystem>
    decreases log.len(),
{
    if log.len() == 0 {
        None
    } else if log.last().is_runner() {
        Some(log.last())
    } else {
        last_runner(log.drop_last())
    }
}

impl App {
    /// An application to which nothing is attached yet.
    pub fn new() -> (out: App)
        ensures
            out@ == Seq::<Subsystem>::empty(),
    {
        App { attached: Vec::new() }
    }

    /// Records that `subsystem` has attached, after all that attached before.
    pub fn install(&mut self, subsystem: Subsystem)
        ensures
            final(self)@ == old(self)@.push(subsystem),
    {
        self.attached.push(subsystem);
    }

    /// The subsystems attached so far, first to last.
    pub fn attached(&self) -> (out: &Vec<Subsystem>)
        ensures
            out@ == self@,
    {
        &self.attached
    }

    /// Whether `subsystem` has attached.
    pub fn contains(&self, subsystem: Subsystem) -> (out: bool)
        ensures
            out == self@.contains(subsystem),
    {
        let mut i: usize = 0;
        while i < self.attached.len()
            invariant
                i <= self.attached@.len(),
                forall|k: int| 0 <= k < i ==> self.attached@[k] != subsystem,
            decreases self.attached@.len() - i,
        {
            if self.attached[i] == subsystem {
                return true;
            }
            i = i + 1;
        }
        false
    }

    /// The runner that drives the main loop: the one attached last, or none
    /// where no runner has attached.
    pub fn runner(&self) -> (out: Option<Subsystem>)
        ensures
            out == last_runner(self@),
    {
        let mut i: usize = self.attached.len();
        assert(self@.take(i as int) =~= self@);
        while i > 0
            invariant
                i <= self.attached@.len(),
                last_runner(self@) == last_runner(self@.take(i as int)),
            decreases i,
        {
            let subsystem = self.attached[i - 1];
            proof {
                let head = self@.take(i as int);
                assert(head.last() == subsystem);
                assert(head.drop_last() =~= self@.take(i - 1));
            }
            if subsystem.is_runner() {
                return Some(subsystem);
            }
            i = i - 1;
        }
        None
    }
}

/// What a subsystem implements to attach itself to an application.
pub trait Plugin {
    /// The attachment log that attaching this plugin to an application with
    /// the log `app` leaves behind.
    spec fn attached(&self, app: Seq<Subsystem>) -> Seq<Subsystem>;

    /// A plugin adds to the application and never replaces it: what had
    /// attached before is still there, in front and in the same order.
    proof fn lemma_attached_extends(&self, app: Seq<Subsystem>)
        ensures
            app.is_prefix_of(self.attached(app)),
    ;

    /// Attaches this plugin to `app`. What earlier plugins have installed is
    /// there to be read, and what this one installs is there for the next.
    fn attach(&self, app: &mut App)
        ensures
            final(app)@ == self.attached(old(app)@),
    ;
}

impl Plugin for Subsystem {
    open spec fn attached(&self, app: Seq<Subsystem>) -> Seq<Subsystem> {
        app.push(*self)
    }

    proof fn lemma_attached_extends(&self, app: Seq<Subsystem>) {
    }

    fn attach(&self, app: &mut App) {
        app.install(*self);
    }
}

} // verus!
