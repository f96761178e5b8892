//! Sequential loading and unloading of the daemon's auxiliary binaries.
//!
//! What it means to load or unload one binary (checking that it exists,
//! running it, asking for its process to end) is a step that the caller hands
//! in; this module decides the order of the steps and when a pass stops.
use vstd::prelude::*;

use crate::error::DaemonError;

verus! {

/// A binary or resource, named by its path.
pub struct Binary {
    path: String,
}

impl View for Binary {
    type V = Seq<char>;

    closed spec fn view(&self) -> Seq<char> {
        self.path@
    }
}

/// The binaries named by `paths`, in the same order.
pub closed spec fn binaries_from(paths: Seq<String>) -> Seq<Binary> {
    paths.map_values(|p: String| Binary { path: p })
}

/// The binaries named by `paths` are as many as the paths, and each is named
/// by the path at the same index.
pub proof fn lemma_binaries_from(paths: Seq<String>)
    ensures
        binaries_from(paths).len() == paths.len(),
        forall|i: int| 0 <= i < paths.len() ==> (#[trigger] binaries_from(paths)[i])@ == paths[i]@,
{
}

/// `step` may have succeeded on every binary of `bins`.
pub open spec fn all_succeed<F: Fn(&Binary) -> Result<(), DaemonError>>(
    bins: Seq<Binary>,
    step: F,
) -> bool {
    forall|i: int| 0 <= i < bins.len() ==> step.ensures((&bins[i],), Ok::<(), DaemonError>(()))
}

/// `step` may have succeeded on the binaries of `bins` before some index `k`
/// and failed with `e` on the binary at `k`: the first failure of a pass.
pub open spec fn fails_first_with<F: Fn(&Binary) -> Result<(), DaemonError>>(
    bins: Seq<Binary>,
    step: F,
    e: DaemonError,
) -> bool {
    exists|k: int|
        0 <= k < bins.len() && #[trigger] step.ensures((&bins[k],), Err::<(), DaemonError>(e))
            && forall|i: int| 0 <= i < k ==> step.ensures((&bins[i],), Ok::<(), DaemonError>(()))
}

/// What a pass of `step` over `bins` may return: success when every step
/// succeeded, otherwise the failure of the first step that failed.
pub open spec fn pass_outcome<F: Fn(&Binary) -> Result<(), DaemonError>>(
    bins: Seq<Binary>,
    step: F,
    r: Result<(), DaemonError>,
) -> bool {
    match r {
        Ok(_) => all_succeed(bins, step),
        Err(e) => fails_first_with(bins, step, e),
    }
}

/// A pass stops at its first failure: when the step on the first binary can
/// only fail, the pass fails, and with the error of that first step.
pub proof fn lemma_pass_stops_at_first_failure<F: Fn(&Binary) -> Result<(), DaemonError>>(
    bins: Seq<Binary>,
    step: F,
    r: Result<(), DaemonError>,
)
    requires
        bins.len() > 0,
        forall|o: Result<(), DaemonError>| step.ensures((&bins[0],), o) ==> o is Err,
        pass_outcome(bins, step, r),
    ensures
        r is Err,
        step.ensures((&bins[0],), r),
{
    match r {
        Ok(_) => {
            assert(step.ensures((&bins[0],), Ok::<(), DaemonError>(())));
        },
        Err(e) => {
            let k = choose|k: int|
                0 <= k < bins.len() && #[trigger] step.ensures(
                    (&bins[k],),
                    Err::<(), DaemonError>(e),
                ) && forall|i: int|
                    0 <= i < k ==> step.ensures((&bins[i],), Ok::<(), DaemonError>(()));
            if k > 0 {
                assert(step.ensures((&bins[0],), Ok::<(), DaemonError>(())));
            }
        },
    }
}

impl Binary {
    /// Creates a binary named by `path`.
    pub fn new(path: String) -> (r: Self)
        ensures
            r@ == path@,
    {
        Binary { path }
    }

    /// The binary's path.
    pub fn path(&self) -> (r: &str)
        ensures
            r@ == self@,
    {
        self.path.as_str()
    }
}

/// Runs `step` on each binary of `bins` in order, stopping at the first
/// failure and returning it; nothing done before it is rolled back.
fn run_pass<F: Fn(&Binary) -> Result<(), DaemonError>>(bins: &Vec<Binary>, step: &F) -> (r: Result<
    (),
    DaemonError,
>)
    requires
        forall|b: &Binary| step.requires((b,)),
    ensures
        pass_outcome(bins@, *step, r),
{
    let mut i: usize = 0;
    while i < bins.len()
        invariant
            0 <= i <= bins.len(),
            forall|b: &Binary| step.requires((b,)),
            forall|j: int| 0 <= j < i ==> step.ensures((&bins@[j],), Ok::<(), DaemonError>(())),
        decreases bins.len() - i,
    {
        let outcome = step(&bins[i]);
        if outcome.is_err() {
            assert(step.ensures((&bins@[i as int],), outcome));
            return outcome;
        }
        assert(outcome->Ok_0 == ());
        i = i + 1;
    }
    Ok(())
}

/// An ordered list of binaries that are loaded and unloaded together.
pub struct BinaryManager {
    binaries: Vec<Binary>,
}

impl BinaryManager {
    /// The binaries, in order.
    pub closed spec fn entries(&self) -> Seq<Binary> {
        self.binaries@
    }

    /// Creates a manager for the binaries named by `binaries`, in that order.
    pub fn new(binaries: Vec<String>) -> (r: Self)
        ensures
            r.entries() == binaries_from(binaries@),
            r.entries().len() == binaries@.len(),
            forall|i: int| 0 <= i < binaries@.len() ==> (#[trigger] r.entries()[i])@ == binaries@[i]@,
    {
        let ghost paths = binaries@;
        let mut rest = binaries;
        let mut reversed: Vec<Binary> = Vec::new();
        while rest.len() > 0
            invariant
                reversed@.len() + rest@.len() == paths.len(),
                forall|j: int| 0 <= j < rest@.len() ==> rest@[j] == paths[j],
                forall|j: int|
                    0 <= j < reversed@.len() ==> reversed@[j] == (Binary {
                        path: paths[paths.len() - 1 - j],
                    }),
            decreases rest.len(),
        {
            let p = rest.pop().unwrap();
            reversed.push(Binary { path: p });
        }
        let mut out: Vec<Binary> = Vec::new();
        while reversed.len() > 0
            invariant
                out@.len() + reversed@.len() == paths.len(),
                forall|j: int|
                    0 <= j < reversed@.len() ==> reversed@[j] == (Binary {
                        path: paths[paths.len() - 1 - j],
                    }),
                forall|j: int| 0 <= j < out@.len() ==> out@[j] == (Binary { path: paths[j] }),
            decreases reversed.len(),
        {
            let b = reversed.pop().unwrap();
            out.push(b);
        }
        assert(out@ =~= binaries_from(paths));
        BinaryManager { binaries: out }
    }

    /// Loads each binary in order with `load`; the first failure stops the
    /// pass and is returned, and the binaries after it are not attempted.
    pub fn load_all<F: Fn(&Binary) -> Result<(), DaemonError>>(&self, load: F) -> (r: Result<
        (),
        DaemonError,
    >)
        requires
            forall|b: &Binary| load.requires((b,)),
        ensures
            pass_outcome(self.entries(), load, r),
    {
        run_pass(&self.binaries, &load)
    }

    /// Unloads each binary in order with `unload`; the first failure stops
    /// the pass and is returned, and the binaries after it are not attempted.
    pub fn unload_all<F: Fn(&Binary) -> Result<(), DaemonError>>(&self, unload: F) -> (r: Result<
        (),
        DaemonError,
    >)
        requires
            forall|b: &Binary| unload.requires((b,)),
        ensures
            pass_outcome(self.entries(), unload, r),
    {
        run_pass(&self.binaries, &unload)
    }
}

} // verus!
