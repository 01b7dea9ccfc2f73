//! The order of the passes of one run, as the command line's switches leave it.

use vstd::prelude::*;

verus! {

/// The switches of one run.
#[derive(Clone, Copy, Debug, PartialEq, Eq, Structural)]
pub struct Options {
    /// Skip the PNG recompression pass.
    pub no_png: bool,
    /// Skip the WebP conversion and the selection that follows it.
    pub no_webp: bool,
    /// Permit the removal of an original PNG that is not smaller than its WebP.
    pub remove_larger_png: bool,
}

/// A pass over all images.
#[derive(Clone, Copy, Debug, PartialEq, Eq, Structural)]
pub enum Pass {
    /// The pool recompresses every PNG in place.
    Recompress,
    /// Every PNG gets its WebP sibling.
    Convert,
    /// Of every pair the loser is removed.
    Select,
}

/// The passes of a run, in order: recompression first, so that the sizes it
/// leaves are the ones compared; conversion before selection.
pub open spec fn passes_for(options: Options) -> Seq<Pass> {
    let first = if options.no_png {
        Seq::<Pass>::empty()
    } else {
        seq![Pass::Recompress]
    };
    let second = if options.no_webp {
        Seq::<Pass>::empty()
    } else {
        seq![Pass::Convert, Pass::Select]
    };
    first + second
}

impl Options {
    /// The passes to run, in order.
    pub fn passes(&self) -> (plan: Vec<Pass>)
        ensures
            plan@ == passes_for(*self),
    {
        let mut plan: Vec<Pass> = Vec::new();
        if !self.no_png {
            plan.push(Pass::Recompress);
        }
        if !self.no_webp {
            plan.push(Pass::Convert);
            plan.push(Pass::Select);
        }
        plan
    }
}

/// Recompression, where it runs, runs before every other pass, and selection
/// runs only right after conversion.
pub proof fn lemma_passes_are_ordered(options: Options, i: int)
    requires
        0 <= i < passes_for(options).len(),
    ensures
        passes_for(options)[i] == Pass::Recompress ==> i == 0,
        passes_for(options)[i] == Pass::Select ==> i > 0 && passes_for(options)[i - 1]
            == Pass::Convert,
        passes_for(options).contains(Pass::Recompress) <==> !options.no_png,
        passes_for(options).contains(Pass::Select) <==> !options.no_webp,
{
    let plan = passes_for(options);
    if !options.no_png {
        assert(plan[0] == Pass::Recompress);
    }
    if !options.no_webp {
        assert(plan[plan.len() - 1] == Pass::Select);
    }
}

} // verus!
