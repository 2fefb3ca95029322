//! Workers and the class names they are known by.

use crate::clock::is_delay;
use crate::error::Error;
use crate::json::{coerce_args, delivers_args, json_array, json_text};
use crate::opts::{is_default_opts, WorkerOpts};
use crate::text::{
    check_class_name,
    is_class_name,
    is_name_character,
    last_segment,
    law_modules_are_ignored,
    path_tail,
};
use crate::unit_of_work::{enqueues_new_job, schedules_new_job, Enqueue, Placement};
use serde_json::Value as JsonValue;
use std::time::Duration;
use vstd::prelude::*;

verus! {

/// `name` in upper camel case, as `convert_case` writes it.
pub uninterp spec fn upper_camel(name: Seq<char>) -> Seq<char>;

/// Converts `name` with `to_case` of `convert_case` to `Case::UpperCamel`, a result fixed by the
/// name alone.
#[verifier::external_body]
pub(crate) fn to_upper_camel(name: &str) -> (r: String)
    ensures
        r@ == upper_camel(name@),
{
    convert_case::Casing::to_case(&name, convert_case::Case::UpperCamel)
}

/// The Sidekiq class name for the type with the path `rust_path`: its last segment, which is
/// brought into upper camel case unless it is a class name as it stands.
pub open spec fn class_name_of(rust_path: Seq<char>) -> Seq<char> {
    let name = last_segment(rust_path);
    if is_class_name(name) {
        name
    } else {
        upper_camel(name)
    }
}

/// Derives the Sidekiq class name for the type with the path `rust_path`.
pub fn derive_class_name(rust_path: &str) -> (r: String)
    ensures
        r@ == class_name_of(rust_path@),
{
    let name: String = path_tail(rust_path);
    if check_class_name(name.as_str()) {
        name
    } else {
        to_upper_camel(name.as_str())
    }
}

/// A type whose name is a class name keeps it, whatever modules the type stands in.
pub proof fn law_valid_class_names_are_kept(modules: Seq<char>, name: Seq<char>)
    requires
        modules.len() > 0 ==> modules.last() != ':',
        is_class_name(name),
    ensures
        class_name_of(name) == name,
        class_name_of(modules + "::"@ + name) == name,
{
    assert forall|i: int| 0 <= i < name.len() implies name[i] != ':' by {
        assert(is_name_character(name[i]));
    }
    law_modules_are_ignored(modules, name);
}

/// Trait implemented by all workers.
pub trait Worker<Args>: Send + Sync {
    /// Signals that the arguments of a job must not be modified before the worker gets them. This
    /// is useful if the arguments are expected to be a `Vec<T>` that might hold one item, or a
    /// tuple of one.
    fn disable_argument_coercion(&self) -> (r: bool)
        default_ensures
            !r,
    {
        false
    }

    /// Returns the default enqueue options for this worker type.
    #[must_use]
    fn opts() -> (r: WorkerOpts<Args, Self>) where Self: Sized
        default_ensures
            is_default_opts(r@),
    {
        WorkerOpts::new()
    }

    /// Returns the maximum number of retries allowed for failed jobs.
    fn max_retries(&self) -> (r: usize)
        default_ensures
            r == 25,
    {
        25
    }

    /// Returns the Sidekiq class name of the worker type, whose path in Rust is `rust_path`.
    #[must_use]
    fn class_name(rust_path: &str) -> (r: String) where Self: Sized
        default_ensures
            r@ == class_name_of(rust_path@),
    {
        derive_class_name(rust_path)
    }

    /// Starts to enqueue this worker, whose path in Rust is `rust_path`, for immediate execution
    /// with [`Worker::opts`].
    fn perform_async(rust_path: &str, args: JsonValue) -> (r: Enqueue) where Self: Sized
        default_ensures
            exists|opts: WorkerOpts<Args, Self>, class: String|
                {
                    &&& call_ensures(Self::opts, (), opts)
                    &&& call_ensures(Self::class_name, (rust_path,), class)
                    &&& #[trigger] enqueues_new_job(r, opts@, class, args)
                },
    {
        Self::opts().into_opts().perform_async(Self::class_name(rust_path), args)
    }

    /// Schedules this worker, whose path in Rust is `rust_path`, to run after the provided delay
    /// with [`Worker::opts`].
    fn perform_in(rust_path: &str, duration: Duration, args: JsonValue) -> (r: Result<
        Placement,
        Error,
    >) where Self: Sized
        default_ensures
            match r {
                Ok(placement) => is_delay(duration) && exists|
                    opts: WorkerOpts<Args, Self>,
                    class: String,
                |
                    {
                        &&& call_ensures(Self::opts, (), opts)
                        &&& call_ensures(Self::class_name, (rust_path,), class)
                        &&& #[trigger] schedules_new_job(placement, opts@, class, args, duration)
                    },
                Err(Error::ChronoRange(_)) => !is_delay(duration),
            },
    {
        Self::opts().into_opts().perform_in(Self::class_name(rust_path), duration, args)
    }
}

/// What a registry keeps of a worker.
#[derive(Clone, Copy, Debug)]
pub struct WorkerRef {
    max_retries: usize,
}

impl View for WorkerRef {
    type V = usize;

    closed spec fn view(&self) -> usize {
        self.max_retries
    }
}

impl WorkerRef {
    /// Takes down the maximum retry count of `worker`.
    pub fn wrap<Args, W: Worker<Args>>(worker: &W) -> (r: Self)
        ensures
            call_ensures(W::max_retries, (worker,), r@),
    {
        WorkerRef { max_retries: worker.max_retries() }
    }

    /// Returns the worker's configured maximum retry count.
    #[must_use]
    pub fn max_retries(&self) -> (r: usize)
        ensures
            r == self@,
    {
        self.max_retries
    }
}

/// Picks what `worker` gets of the stored arguments `args`, where `expects_unit` says whether it
/// takes no arguments.
pub fn worker_args<Args, W: Worker<Args>>(worker: &W, expects_unit: bool, args: JsonValue) -> (r:
    JsonValue)
    ensures
        exists|disabled: bool|
            call_ensures(W::disable_argument_coercion, (worker,), disabled)
                && #[trigger] delivers_args(args, disabled, expects_unit, r),
{
    coerce_args(args, worker.disable_argument_coercion(), expects_unit)
}

impl<Args, W: Worker<Args>> WorkerOpts<Args, W> {
    /// Starts to enqueue the worker, whose path in Rust is `rust_path`, for immediate execution.
    pub fn perform_async(&self, rust_path: &str, args: JsonValue) -> (r: Enqueue)
        ensures
            exists|class: String|
                call_ensures(W::class_name, (rust_path,), class) && #[trigger] enqueues_new_job(
                    r,
                    self@,
                    class,
                    args,
                ),
    {
        self.into_opts().perform_async(W::class_name(rust_path), args)
    }

    /// Schedules the worker, whose path in Rust is `rust_path`, to run after the provided delay.
    pub fn perform_in(&self, rust_path: &str, duration: Duration, args: JsonValue) -> (r: Result<
        Placement,
        Error,
    >)
        ensures
            match r {
                Ok(placement) => is_delay(duration) && exists|class: String|
                    call_ensures(W::class_name, (rust_path,), class)
                        && #[trigger] schedules_new_job(placement, self@, class, args, duration),
                Err(Error::ChronoRange(_)) => !is_delay(duration),
            },
    {
        self.into_opts().perform_in(W::class_name(rust_path), duration, args)
    }
}

/// A type whose name starts with a capital and goes on with letters, digits and underscores keeps
/// its name as class name, whatever modules it stands in.
pub proof fn law_final_type_name_is_kept(
    modules: Seq<char>,
    name: Seq<char>,
    path: &str,
    class: String,
)
    requires
        path@ == name || path@ == modules + "::"@ + name,
        modules.len() > 0 ==> modules.last() != ':',
        name.len() > 0,
        'A' <= name[0] <= 'Z',
        forall|i: int|
            0 <= i < name.len() ==> {
                let c = #[trigger] name[i];
                'A' <= c <= 'Z' || 'a' <= c <= 'z' || '0' <= c <= '9' || c == '_'
            },
        call_ensures(derive_class_name, (path,), class),
    ensures
        class@ == name,
{
    assert forall|i: int| 0 <= i < name.len() implies #[trigger] is_name_character(name[i]) by {
        assert(name[i] == name[i]);
    }
    law_valid_class_names_are_kept(modules, name);
}

/// Any other name without a colon is brought into upper camel case, whatever modules its type stands
/// in.
pub proof fn law_other_type_names_are_recased(
    modules: Seq<char>,
    name: Seq<char>,
    path: &str,
    class: String,
)
    requires
        path@ == name || path@ == modules + "::"@ + name,
        modules.len() > 0 ==> modules.last() != ':',
        forall|i: int| 0 <= i < name.len() ==> name[i] != ':',
        name.len() == 0 || !('A' <= name[0] <= 'Z') || exists|i: int|
            0 <= i < name.len() && {
                let c = #[trigger] name[i];
                !('A' <= c <= 'Z' || 'a' <= c <= 'z' || '0' <= c <= '9' || c == '_')
            },
        call_ensures(derive_class_name, (path,), class),
    ensures
        class@ == upper_camel(name),
{
    law_modules_are_ignored(modules, name);
    assert(last_segment(path@) == name);
    if is_class_name(name) {
        let i = choose|i: int|
            0 <= i < name.len() && {
                let c = #[trigger] name[i];
                !('A' <= c <= 'Z' || 'a' <= c <= 'z' || '0' <= c <= '9' || c == '_')
            };
        assert(is_name_character(name[i]));
    }
}

/// A registry keeps the retries that the worker allows.
pub proof fn law_registered_retries_are_the_workers<Args, W: Worker<Args>>(
    worker: W,
    registered: WorkerRef,
    max: usize,
)
    requires
        call_ensures(WorkerRef::wrap::<Args, W>, (&worker,), registered),
        call_ensures(WorkerRef::max_retries, (&registered,), max),
    ensures
        call_ensures(W::max_retries, (&worker,), max),
{
}

/// What a worker gets is up to what it says of coercion: all arguments as they are if it disables
/// it; otherwise nothing if it takes none, the item of an array of one, and all else as it is.
pub proof fn law_worker_gets_its_arguments<Args, W: Worker<Args>>(
    worker: W,
    expects_unit: bool,
    args: JsonValue,
    delivered: JsonValue,
) -> (disabled: bool)
    requires
        call_ensures(worker_args::<Args, W>, (&worker, expects_unit, args), delivered),
    ensures
        call_ensures(W::disable_argument_coercion, (&worker,), disabled),
        disabled ==> delivered == args,
        !disabled && expects_unit ==> json_array(delivered) is None && json_text(delivered)
            == "null"@,
        !disabled && !expects_unit ==> match json_array(args) {
            Some(items) => if items.len() == 1 {
                delivered == items[0]
            } else {
                delivered == args
            },
            None => delivered == args,
        },
{
    choose|disabled: bool|
        call_ensures(W::disable_argument_coercion, (&worker,), disabled)
            && #[trigger] delivers_args(args, disabled, expects_unit, delivered)
}

} // verus!
