//! Where the interface descriptor is written, and what a compilation ends with.
use vstd::prelude::*;

use crate::activation::ActivationContext;
use crate::args::args_view;

verus! {

/// The name of the directory that holds the build's outputs.
pub open spec fn marker() -> Seq<char> {
    "target"@
}

/// The subdirectory of the output root where descriptors go.
pub open spec fn artifact_subdir() -> Seq<char> {
    "service"@
}

/// The extension of a descriptor file.
pub open spec fn artifact_ext() -> Seq<char> {
    ".json"@
}

/// The path components left after dropping last components until the last
/// one is the marker; `None` where no component is the marker.
pub open spec fn marker_ancestor(comps: Seq<Seq<char>>) -> Option<Seq<Seq<char>>>
    decreases comps.len(),
{
    if comps.len() == 0 {
        None
    } else if comps.last() == marker() {
        Some(comps)
    } else {
        marker_ancestor(comps.drop_last())
    }
}

/// The directory, as path components, where descriptors go.
pub open spec fn spec_output_root(comps: Seq<Seq<char>>) -> Option<Seq<Seq<char>>> {
    match marker_ancestor(comps) {
        Some(a) => Some(a.push(artifact_subdir())),
        None => None,
    }
}

/// Why no output root could be found.
#[derive(Debug, PartialEq, Eq, Structural)]
pub enum LocateError {
    /// No ancestor of the output directory has the marker's name.
    NoMarker,
}

/// The output root for an output directory given as path components: the
/// nearest ancestor named `target` (the directory itself included), then its
/// `service` subdirectory. The search ends at the first component.
pub fn output_root(out_dir: &Vec<String>) -> (r: Result<Vec<String>, LocateError>)
    ensures
        match r {
            Ok(root) => spec_output_root(args_view(out_dir@)) == Some(args_view(root@)),
            Err(e) => spec_output_root(args_view(out_dir@)) is None && e == LocateError::NoMarker,
        },
{
    let ghost comps = args_view(out_dir@);
    let target = "target".to_owned();
    let mut n: usize = out_dir.len();
    assert(comps.take(n as int) =~= comps);
    while n > 0 && out_dir[n - 1] != target
        invariant
            comps == args_view(out_dir@),
            target@ == marker(),
            n <= out_dir@.len(),
            marker_ancestor(comps) == marker_ancestor(comps.take(n as int)),
        decreases n,
    {
        assert(comps.take(n as int).drop_last() =~= comps.take(n - 1));
        n -= 1;
    }
    if n == 0 {
        assert(comps.take(0) =~= Seq::<Seq<char>>::empty());
        return Err(LocateError::NoMarker);
    }
    let mut root: Vec<String> = Vec::new();
    let mut i: usize = 0;
    assert(args_view(root@) =~= comps.take(0));
    while i < n
        invariant
            comps == args_view(out_dir@),
            0 < n <= out_dir@.len(),
            i <= n,
            args_view(root@) == comps.take(i as int),
        decreases n - i,
    {
        let ghost prev = root@;
        root.push(out_dir[i].clone());
        assert(args_view(root@) =~= args_view(prev).push(comps[i as int]));
        assert(args_view(root@) =~= comps.take(i + 1));
        i += 1;
    }
    let ghost prefix = root@;
    root.push("service".to_owned());
    assert(args_view(root@) =~= args_view(prefix).push(artifact_subdir()));
    Ok(root)
}

/// Every ancestor reached is a prefix of the output directory that ends in
/// the marker, with no marker after it; and none is reached exactly when no
/// component is the marker.
pub proof fn lemma_output_root_is_nearest_marker(comps: Seq<Seq<char>>)
    ensures
        match marker_ancestor(comps) {
            Some(a) => {
                &&& 0 < a.len() <= comps.len()
                &&& a == comps.take(a.len() as int)
                &&& a.last() == marker()
                &&& forall|j: int| a.len() <= j < comps.len() ==> comps[j] != marker()
            },
            None => forall|j: int| 0 <= j < comps.len() ==> comps[j] != marker(),
        },
        spec_output_root(comps) is Some <==> marker_ancestor(comps) is Some,
    decreases comps.len(),
{
    if comps.len() > 0 {
        let init = comps.drop_last();
        lemma_output_root_is_nearest_marker(init);
        if comps.last() != marker() {
            match marker_ancestor(init) {
                Some(a) => {
                    assert(a =~= comps.take(a.len() as int));
                },
                None => {},
            }
        } else {
            assert(comps =~= comps.take(comps.len() as int));
        }
    }
}

/// The file name of the descriptor of a service: its name and the extension.
pub fn artifact_file_name(service_name: &str) -> (r: String)
    ensures
        r@ == service_name@ + artifact_ext(),
{
    service_name.to_owned().concat(".json")
}

/// The line that reports a crate in which no service was found.
pub open spec fn spec_no_service_message(unit: Seq<char>) -> Seq<char> {
    "No service defined in crate: `"@ + unit + "`"@
}

/// The diagnostic for a crate in which no service was found.
pub fn no_service_message(unit: &str) -> (r: String)
    ensures
        r@ == spec_no_service_message(unit@),
{
    "No service defined in crate: `".to_owned().concat(unit).concat("`")
}

/// The name under which a unit is reported: its `--crate-name`, or nothing.
pub open spec fn unit_label(ctx: ActivationContext) -> Seq<char> {
    match ctx.unit_name {
        Some(u) => u@,
        None => Seq::<char>::empty(),
    }
}

/// What is left to do once the compiler has run.
pub enum Completion {
    /// Nothing: the pass did not run, or no output directory was given.
    Done,
    /// The pass found no service: print `message` as a warning and fail.
    NoService { message: String },
    /// The output directory has no ancestor named `target`: fail.
    NoOutputRoot,
    /// Write the descriptor to `file_name` in `dir`, creating `dir` if absent.
    Write { dir: Vec<String>, file_name: String },
}

impl Completion {
    pub open spec fn spec_exit_status(&self) -> i32 {
        match self {
            Completion::Done => 0,
            Completion::Write { .. } => 0,
            Completion::NoService { .. } => 1,
            Completion::NoOutputRoot => 1,
        }
    }

    /// The process's exit status once this is done: 0 on success, 1 on a
    /// reported failure.
    pub fn exit_status(&self) -> (r: i32)
        ensures
            r == self.spec_exit_status(),
    {
        match self {
            Completion::Done => 0,
            Completion::Write { .. } => 0,
            Completion::NoService { .. } => 1,
            Completion::NoOutputRoot => 1,
        }
    }
}

/// Decides what follows a compilation, from its context, its `--out-dir` as
/// path components, and the service name of the descriptor that the pass
/// produced, if any.
pub fn complete(ctx: &ActivationContext, out_dir: Option<&Vec<String>>, service_name: Option<&str>) -> (r: Completion)
    ensures
        !ctx.spec_do_gen() ==> r is Done,
        ctx.spec_do_gen() && service_name is None ==> (r matches Completion::NoService { message }
            && message@ == spec_no_service_message(unit_label(*ctx))),
        ctx.spec_do_gen() && service_name is Some && out_dir is None ==> r is Done,
        ctx.spec_do_gen() && service_name is Some && out_dir is Some ==> match spec_output_root(
            args_view(out_dir->0@),
        ) {
            None => r is NoOutputRoot,
            Some(root) => r matches Completion::Write { dir, file_name } && args_view(dir@) == root
                && file_name@ == service_name->0@ + artifact_ext(),
        },
{
    if !ctx.do_gen() {
        return Completion::Done;
    }
    let name = match service_name {
        Some(n) => n,
        None => {
            let message = match &ctx.unit_name {
                Some(u) => no_service_message(u.as_str()),
                None => {
                    proof {
                        reveal_strlit("");
                    }
                    assert(""@ =~= Seq::<char>::empty());
                    no_service_message("")
                },
            };
            return Completion::NoService { message };
        },
    };
    let dir = match out_dir {
        Some(d) => d,
        None => return Completion::Done,
    };
    match output_root(dir) {
        Ok(root) => Completion::Write { dir: root, file_name: artifact_file_name(name) },
        Err(_) => Completion::NoOutputRoot,
    }
}

} // verus!
