use vstd::prelude::*;

verus! {

/// The three pipeline stages, named from the end of the data flow.
#[derive(Clone, Copy, Debug, PartialEq, Eq, Structural)]
pub enum Stage {
    Render,
    Transfer,
    Ui,
}

/// How far upstream a stage sits: the UI stage feeds the transfer stage, which feeds
/// the render stage.
pub open spec fn upstream_rank(s: Stage) -> nat {
    match s {
        Stage::Ui => 2,
        Stage::Transfer => 1,
        Stage::Render => 0,
    }
}

/// The order in which the stages stop and are joined.
pub open spec fn cascade_order() -> Seq<Stage> {
    seq![Stage::Render, Stage::Transfer, Stage::Ui]
}

/// The shutdown cascade: stages are stopped and joined from the most downstream one
/// up, so no stage is gone while a stage it still reads from runs.
pub struct Cascade {
    stopped: usize,
}

impl View for Cascade {
    type V = nat;

    /// How many stages have been stopped.
    closed spec fn view(&self) -> nat {
        self.stopped as nat
    }
}

impl Cascade {
    /// A cascade that has stopped nothing yet.
    pub fn new() -> (r: Cascade)
        ensures
            r@ == 0,
    {
        Cascade { stopped: 0 }
    }

    /// The next stage to stop and join, or `None` once all three are.
    pub fn next_stage(&mut self) -> (r: Option<Stage>)
        requires
            old(self)@ <= 3,
        ensures
            old(self)@ < 3 ==> r == Some(cascade_order()[old(self)@ as int]) && final(self)@
                == old(self)@ + 1,
            old(self)@ == 3 ==> r is None && final(self)@ == 3,
    {
        let r = if self.stopped == 0 {
            Some(Stage::Render)
        } else if self.stopped == 1 {
            Some(Stage::Transfer)
        } else if self.stopped == 2 {
            Some(Stage::Ui)
        } else {
            None
        };
        if self.stopped < 3 {
            self.stopped = self.stopped + 1;
        }
        r
    }

    /// Whether every stage has been stopped.
    pub fn is_done(&self) -> (r: bool)
        ensures
            r == (self@ >= 3),
    {
        self.stopped >= 3
    }
}

/// Upstream last: in the cascade every stage is stopped before each stage upstream
/// of it, and each stage exactly once.
pub proof fn lemma_upstream_last(i: int, j: int)
    requires
        0 <= i < j < cascade_order().len(),
    ensures
        upstream_rank(cascade_order()[i]) < upstream_rank(cascade_order()[j]),
        cascade_order()[i] != cascade_order()[j],
{
}

} // verus!
