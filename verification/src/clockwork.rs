//! The runtime owner and the handle through which work is started and the
//! stop signal is raised and read.

use crate::clockwork_config::ClockworkConfig;
use crate::clockwork_config::RuntimeConfig;
use std::future::Future;
use std::sync::atomic::AtomicBool;
use std::sync::atomic::Ordering;
use std::sync::Arc;
use tokio::runtime::Builder;
use tokio::runtime::Runtime;
use vstd::prelude::*;

verus! {

/// `tokio::runtime::Builder`, carried through as an opaque value.
#[verifier::external_type_specification]
#[verifier::external_body]
pub struct ExBuilder(Builder);

/// `tokio::runtime::Runtime`, carried through as an opaque value.
#[verifier::external_type_specification]
#[verifier::external_body]
pub struct ExRuntime(Runtime);

/// `std::io::Error`, carried through as an opaque value.
#[verifier::external_type_specification]
#[verifier::external_body]
pub struct ExIoError(std::io::Error);

/// The settings that a runtime builder holds at the moment: whether the I/O
/// driver and the timer driver are switched on, and the ceiling on blocking
/// threads.
pub uninterp spec fn builder_settings(builder: Builder) -> RuntimeConfig;

/// The settings that a runtime was built with.
pub uninterp spec fn runtime_settings(runtime: Runtime) -> RuntimeConfig;

/// Calls `tokio::runtime::Builder::new_current_thread`. A new builder has
/// both drivers switched off.
#[verifier::external_body]
fn new_builder() -> (builder: Builder)
    ensures
        !builder_settings(builder).enable_io,
        !builder_settings(builder).enable_time,
{
    Builder::new_current_thread()
}

/// Calls `tokio::runtime::Builder::enable_io`, which switches the I/O driver
/// on and leaves the other settings as they are.
#[verifier::external_body]
fn enable_io(builder: &mut Builder)
    ensures
        builder_settings(*final(builder)) == (RuntimeConfig {
            enable_io: true,
            ..builder_settings(*old(builder))
        }),
{
    builder.enable_io();
}

/// Calls `tokio::runtime::Builder::enable_time`, which switches the timer
/// driver on and leaves the other settings as they are.
#[verifier::external_body]
fn enable_time(builder: &mut Builder)
    ensures
        builder_settings(*final(builder)) == (RuntimeConfig {
            enable_time: true,
            ..builder_settings(*old(builder))
        }),
{
    builder.enable_time();
}

/// Calls `tokio::runtime::Builder::max_blocking_threads`, which sets the
/// ceiling on blocking threads and leaves the other settings as they are. The
/// outside function panics on zero, so zero is not admitted.
#[verifier::external_body]
fn set_max_blocking_threads(builder: &mut Builder, limit: usize)
    requires
        limit > 0,
    ensures
        builder_settings(*final(builder)) == (RuntimeConfig {
            max_threads: limit,
            ..builder_settings(*old(builder))
        }),
{
    builder.max_blocking_threads(limit);
}

/// Calls `tokio::runtime::Builder::build`. Whether the operating system
/// grants what the runtime needs is not known beforehand; a runtime that does
/// come back was built with the settings that the builder held.
#[verifier::external_body]
fn build_runtime(builder: &mut Builder) -> (built: Result<Runtime, std::io::Error>)
    ensures
        built matches Ok(runtime) ==> runtime_settings(runtime) == builder_settings(*old(builder)),
{
    builder.build()
}

/// Calls `tokio::runtime::Runtime::spawn` and lets go of the join handle: the
/// future runs on the runtime, detached.
#[verifier::external_body]
fn spawn_on<F>(runtime: &Runtime, future: F) where
    F: Future + Send + 'static,
    F::Output: Send + 'static,
{
    runtime.spawn(future);
}

/// Why a runtime could not be built.
#[derive(Debug)]
pub enum BuildError {
    /// The configuration allows no blocking thread at all.
    NoBlockingThreads,
    /// The operating system refused a resource that the runtime needs.
    Driver(std::io::Error),
}

/// A shared reference to a runtime and to its stop signal. Every clone
/// refers to the same runtime and the same signal.
pub struct ClockworkHandle {
    rt: Arc<Runtime>,
    stopped: Arc<AtomicBool>,
}

impl ClockworkHandle {
    /// The runtime that this handle refers to.
    pub closed spec fn spec_runtime(&self) -> Runtime {
        *self.rt
    }

    /// The stop signal that this handle refers to. This is the cell, not what
    /// it holds: what a shared cell holds is no function of the handle.
    pub closed spec fn spec_signal(&self) -> AtomicBool {
        *self.stopped
    }

    /// Creates a handle to the given runtime, with a stop signal of its own
    /// that is not raised.
    pub fn new(rt: Arc<Runtime>) -> (handle: Self)
        ensures
            handle.spec_runtime() == *rt,
    {
        Self { rt, stopped: Arc::new(AtomicBool::new(false)) }
    }

    /// The runtime that this handle refers to.
    pub fn runtime(&self) -> (runtime: &Runtime)
        ensures
            *runtime == self.spec_runtime(),
    {
        &self.rt
    }

    /// Starts a future on the runtime, detached. Nothing comes back: a future
    /// that fails is neither retried nor reported.
    pub fn spawn_task<F>(&self, future: F) where
        F: Future + Send + 'static,
        F::Output: Send + 'static,
    {
        spawn_on(&self.rt, future);
    }

    /// Raises the stop signal. Work that is running is not interrupted: the
    /// signal changes what later reads return.
    pub fn stop(&self) {
        self.stopped.store(true, Ordering::SeqCst);
    }

    /// Reads the stop signal at this moment.
    pub fn stopped(&self) -> bool {
        self.stopped.load(Ordering::Relaxed)
    }
}

impl Clone for ClockworkHandle {
    fn clone(&self) -> (handle: Self)
        ensures
            handle == *self,
    {
        Self { rt: self.rt.clone(), stopped: self.stopped.clone() }
    }
}

/// The owner of a runtime. It hands out handles to it.
pub struct Clockwork {
    handle: ClockworkHandle,
}

impl Clockwork {
    /// The handle that this owner holds.
    pub closed spec fn spec_handle(&self) -> ClockworkHandle {
        self.handle
    }

    /// The settings that the owned runtime was built with.
    pub open spec fn settings(&self) -> RuntimeConfig {
        runtime_settings(self.spec_handle().spec_runtime())
    }

    /// Creates an owner from a handle.
    pub fn new(handle: ClockworkHandle) -> (cw: Self)
        ensures
            cw.spec_handle() == handle,
    {
        Self { handle }
    }

    /// Builds a runtime as the configuration asks and wraps it in an owner.
    ///
    /// A configuration that allows no blocking thread is refused. Otherwise
    /// the drivers are switched on as the configuration says and the runtime
    /// is built; the operating system may still refuse it.
    pub fn from_config(conf: ClockworkConfig) -> (r: Result<Clockwork, BuildError>)
        ensures
            conf.runtime.max_threads == 0 ==> r matches Err(BuildError::NoBlockingThreads),
            conf.runtime.max_threads != 0 ==> !(r matches Err(BuildError::NoBlockingThreads)),
            r matches Ok(cw) ==> cw.settings() == conf.runtime,
    {
        if conf.runtime.max_threads == 0 {
            return Err(BuildError::NoBlockingThreads);
        }
        let mut builder = new_builder();
        if conf.runtime.enable_io {
            enable_io(&mut builder);
        }
        if conf.runtime.enable_time {
            enable_time(&mut builder);
        }
        set_max_blocking_threads(&mut builder, conf.runtime.max_threads);
        let built = build_runtime(&mut builder);
        Clockwork::from_built(built)
    }

    /// Wraps the outcome of building a runtime: a runtime becomes an owner
    /// of that runtime, a refusal by the operating system becomes
    /// `BuildError::Driver` with the same error.
    pub fn from_built(built: Result<Runtime, std::io::Error>) -> (r: Result<Clockwork, BuildError>)
        ensures
            built matches Ok(runtime) ==> (r matches Ok(cw) && cw.spec_handle().spec_runtime()
                == runtime),
            built matches Err(error) ==> (r matches Err(BuildError::Driver(e)) && e == error),
    {
        match built {
            Ok(runtime) => Ok(Clockwork::new(ClockworkHandle::new(Arc::new(runtime)))),
            Err(error) => Err(BuildError::Driver(error)),
        }
    }

    /// A new handle to the same runtime and the same stop signal.
    pub fn handle(&self) -> (handle: ClockworkHandle)
        ensures
            handle == self.spec_handle(),
    {
        self.handle.clone()
    }

    /// Starts a future on the runtime, detached.
    pub fn spawn_task<F>(&self, future: F) where
        F: Future + Send + 'static,
        F::Output: Send + 'static,
    {
        self.handle.spawn_task(future);
    }

    /// Raises the stop signal.
    pub fn stop(&mut self)
        ensures
            final(self).spec_handle() == old(self).spec_handle(),
    {
        self.handle.stop();
    }
}

} // verus!
