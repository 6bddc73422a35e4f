//! How each workload type is handed to the execution engine.

use vstd::prelude::*;
use vstd::string::*;
use crate::error::{RunError, RunErrorView};
use crate::paths::{file_name_of, path_file_name};
use crate::protocol::{Invocation, InvocationView};
use crate::text::{followed_by, decimal, decimal_digits, opt_text};
use crate::workload::WorkloadType;

verus! {

/// The arguments with which a workload of the given type is run: for
/// JavaScript the module flag and the path, for Python the flags that isolate
/// the interpreter from the user's site and environment and the path, for a
/// binary nothing. The path is appended as it is, neither quoted nor escaped.
pub open spec fn script_arguments(kind: WorkloadType, path: Seq<char>) -> Seq<char> {
    match kind {
        WorkloadType::JavaScript => "-m "@ + path,
        WorkloadType::Python => "-S -I "@ + path,
        WorkloadType::Binary => Seq::empty(),
    }
}

/// The binary that the engine executes: the interpreter for JavaScript, the
/// interpreter's entry point relative to its installation root for Python,
/// the workload itself for a binary.
pub open spec fn effective_binary(
    kind: WorkloadType,
    interpreter_path: Seq<char>,
    absolute_path: Seq<char>,
) -> Seq<char> {
    match kind {
        WorkloadType::JavaScript => interpreter_path,
        WorkloadType::Python => "bin/python3"@,
        WorkloadType::Binary => absolute_path,
    }
}

/// The invocation of a workload at the time `nanos`, in nanoseconds since the
/// Unix epoch: the time, in decimal, is the invocation's name.
pub open spec fn invocation(
    kind: WorkloadType,
    interpreter_path: Seq<char>,
    absolute_path: Seq<char>,
    label: Seq<char>,
    nanos: u128,
) -> InvocationView {
    InvocationView {
        script_label: label,
        invocation_name: decimal_digits(nanos as nat),
        binary_path: effective_binary(kind, interpreter_path, absolute_path),
        args: script_arguments(kind, absolute_path),
    }
}

/// The arguments and the label of a workload whose path has the given final
/// component, or the error of a path that has none.
pub open spec fn labelled_arguments(
    kind: WorkloadType,
    path: Seq<char>,
    file_name: Option<Seq<char>>,
) -> Result<(Seq<char>, Seq<char>), RunErrorView> {
    match file_name {
        Some(name) => Ok((script_arguments(kind, path), name)),
        None => Err(RunErrorView::InvalidWorkloadPath),
    }
}

/// The view of the result of `prepare_script_args`.
pub open spec fn prepared_view(r: Result<(String, String), RunError>) -> Result<
    (Seq<char>, Seq<char>),
    RunErrorView,
> {
    match r {
        Ok((args, label)) => Ok((args@, label@)),
        Err(e) => Err(e@),
    }
}

/// Builds the arguments with which a workload of the given type is run.
pub fn script_args(kind: WorkloadType, workload_path: &str) -> (r: String)
    ensures
        r@ == script_arguments(kind, workload_path@),
{
    match kind {
        WorkloadType::JavaScript => followed_by("-m ", workload_path),
        WorkloadType::Python => followed_by("-S -I ", workload_path),
        WorkloadType::Binary => {
            let r = String::new();
            assert(r@ =~= Seq::<char>::empty());
            r
        },
    }
}

/// The arguments and the label of a workload, given the final component of
/// its path as the path library found it.
pub fn label_script_args(kind: WorkloadType, workload_path: &str, file_name: Option<String>) -> (r:
    Result<(String, String), RunError>)
    ensures
        prepared_view(r) == labelled_arguments(kind, workload_path@, opt_text(file_name)),
{
    match file_name {
        Some(name) => Ok((script_args(kind, workload_path), name)),
        None => Err(RunError::InvalidWorkloadPath),
    }
}

/// The arguments of a workload and its label, the final component of its
/// path. Fails with `InvalidWorkloadPath` exactly where the path has no final
/// component.
pub fn prepare_script_args(kind: WorkloadType, workload_path: &str) -> (r: Result<
    (String, String),
    RunError,
>)
    ensures
        prepared_view(r) == labelled_arguments(
            kind,
            workload_path@,
            path_file_name(workload_path@),
        ),
{
    label_script_args(kind, workload_path, file_name_of(workload_path))
}

impl Invocation {
    /// The invocation of a workload at the time `nanos`, in nanoseconds since
    /// the Unix epoch.
    pub fn prepare(
        kind: WorkloadType,
        interpreter_path: &str,
        absolute_path: &str,
        label: &str,
        nanos: u128,
    ) -> (r: Invocation)
        ensures
            r@ == invocation(kind, interpreter_path@, absolute_path@, label@, nanos),
    {
        let binary_path = match kind {
            WorkloadType::JavaScript => interpreter_path.to_owned(),
            WorkloadType::Python => "bin/python3".to_owned(),
            WorkloadType::Binary => absolute_path.to_owned(),
        };
        Invocation {
            script_label: label.to_owned(),
            invocation_name: decimal(nanos),
            binary_path,
            args: script_args(kind, absolute_path),
        }
    }
}

} // verus!
