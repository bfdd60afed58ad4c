//! Runs one module in a fresh, isolated WebAssembly instance that sees only
//! the WASI preview 1 interface: the host's standard output and error, the
//! host clocks and random source, and no files, arguments, environment or
//! network.

use vstd::prelude::*;

use wasmtime::{Config, Engine, Instance, Linker, Module, Store, TypedFunc};
use wasmtime_wasi::preview1::WasiP1Ctx;
use wasmtime_wasi::WasiCtxBuilder;

use crate::extract::ExecutionRequestEvent;

verus! {

#[verifier::external_type_specification]
#[verifier::external_body]
pub struct ExConfig(Config);

#[verifier::external_type_specification]
#[verifier::external_body]
pub struct ExEngine(Engine);

#[verifier::external_type_specification]
#[verifier::external_body]
pub struct ExWasiP1Ctx(WasiP1Ctx);

#[verifier::external_type_specification]
#[verifier::external_body]
pub struct ExWasiCtxBuilder(WasiCtxBuilder);

/// The name of the routine that a module exports to be run.
pub const ENTRY_SYMBOL: &'static str = "_start";

/// The fuel a run gets where the caller sets no budget: in effect no limit.
pub const UNLIMITED_FUEL: u64 = 18446744073709551615;

/// The address space reserved up front for a linear memory, in bytes.
pub const MEMORY_RESERVATION: u64 = 16777216;

/// The address space reserved beyond a linear memory for it to grow into.
pub const MEMORY_RESERVATION_FOR_GROWTH: u64 = 1048576;

/// The unmapped guard region after a linear memory, in bytes.
pub const MEMORY_GUARD_SIZE: u64 = 65536;

/// How one run of a module ended.
pub enum SandboxOutcome {
    /// The start routine returned.
    Completed,
    /// The start routine faulted or ran out of fuel; the fault's description.
    Trapped(String),
    /// The module could not be compiled, linked or instantiated.
    InstantiationFailed(String),
    /// The module exports no start routine; nothing was run.
    EntryPointAbsent,
}

/// Whether the sandbox's engine accepts `code` as a module: it is a valid
/// WebAssembly binary that the engine, with this library's fixed settings,
/// compiles.
pub uninterp spec fn wasm_compiles(code: Seq<u8>) -> bool;

/// Whether every import of the module `code` is a WASI preview 1 function of
/// the type that the linker defines for it.
pub uninterp spec fn imports_resolve_in_wasi(code: Seq<u8>) -> bool;

/// What holds of every run of `code`, whatever the module does: bytes that
/// do not compile, or that import anything beyond WASI preview 1, end in
/// `InstantiationFailed`, and any other outcome means that they compiled and
/// their imports resolved; `EntryPointAbsent` means that the module exports no
/// start routine, and a run that completed or trapped means that it does.
pub open spec fn outcome_fits(code: Seq<u8>, o: SandboxOutcome) -> bool {
    &&& !wasm_compiles(code) ==> o is InstantiationFailed
    &&& !(o is InstantiationFailed) ==> wasm_compiles(code)
    &&& !imports_resolve_in_wasi(code) ==> o is InstantiationFailed
    &&& !(o is InstantiationFailed) ==> imports_resolve_in_wasi(code)
    &&& o is EntryPointAbsent ==> !exports_entry(code)
    &&& (o is Completed || o is Trapped) ==> exports_entry(code)
}

/// The capabilities that a context grants on top of the WASI builder's
/// defaults (no files, arguments, environment or network; host clocks and
/// random source).
#[derive(Clone, Copy, PartialEq, Eq, Structural)]
pub struct WasiGrants {
    /// The module's standard output is the host's.
    pub stdout: bool,
    /// The module's standard error is the host's.
    pub stderr: bool,
}

impl WasiGrants {
    /// The standard streams and nothing more.
    pub fn standard_streams() -> (r: WasiGrants)
        ensures
            r == (WasiGrants { stdout: true, stderr: true }),
    {
        WasiGrants { stdout: true, stderr: true }
    }
}

/// The host-side state of one run: the WASI context the module sees, and
/// what it was granted.
pub struct WasiRuntimeContext {
    ctx: WasiP1Ctx,
    grants: WasiGrants,
}

/// A store and a linker made from one engine, before any module is loaded.
#[verifier::external_body]
pub struct Sandbox {
    engine: Engine,
    store: Store<WasiRuntimeContext>,
    linker: Linker<WasiRuntimeContext>,
}

/// The store, linker and module of one engine, after compiling.
#[verifier::external_body]
pub struct CompiledParts {
    store: Store<WasiRuntimeContext>,
    linker: Linker<WasiRuntimeContext>,
    module: Module,
}

/// A compiled module, with the bytes it was compiled from.
pub struct LoadedModule {
    parts: CompiledParts,
    code: Vec<u8>,
}

/// An instance together with the store that owns it.
#[verifier::external_body]
pub struct InstanceParts {
    store: Store<WasiRuntimeContext>,
    instance: Instance,
}

/// A live instance, with the bytes of the module it was made from.
pub struct LiveInstance {
    parts: InstanceParts,
    code: Vec<u8>,
}

/// A start routine together with the store that owns it.
#[verifier::external_body]
pub struct EntryPoint {
    store: Store<WasiRuntimeContext>,
    func: TypedFunc<(), ()>,
}

/// Whether the module `code` exports a function called `name` that takes
/// and returns nothing.
pub uninterp spec fn exports_unit_func(code: Seq<u8>, name: Seq<char>) -> bool;

/// Whether the module `code` exports a start routine.
pub open spec fn exports_entry(code: Seq<u8>) -> bool {
    exports_unit_func(code, ENTRY_SYMBOL@)
}

/// Relies on wasmtime_wasi::WasiCtxBuilder::new: no preopened directories,
/// arguments or environment variables, standard streams closed or
/// discarded, network addresses denied, host clocks and random source.
#[verifier::external_body]
fn new_wasi_builder() -> WasiCtxBuilder {
    WasiCtxBuilder::new()
}

/// Relies on wasmtime_wasi::WasiCtxBuilder::inherit_stdout.
#[verifier::external_body]
fn grant_stdout(builder: &mut WasiCtxBuilder) {
    builder.inherit_stdout();
}

/// Relies on wasmtime_wasi::WasiCtxBuilder::inherit_stderr.
#[verifier::external_body]
fn grant_stderr(builder: &mut WasiCtxBuilder) {
    builder.inherit_stderr();
}

/// Relies on wasmtime_wasi::WasiCtxBuilder::build_p1; the builder is taken by
/// value, so it is never built twice, the one case where build_p1 panics.
#[verifier::external_body]
fn build_preview1(builder: WasiCtxBuilder) -> WasiP1Ctx {
    let mut builder = builder;
    builder.build_p1()
}

impl WasiRuntimeContext {
    /// What the context was granted.
    pub closed spec fn granted(&self) -> WasiGrants {
        self.grants
    }

    /// A fresh context, built from a fresh builder, with `grants` on top of
    /// the builder's defaults.
    pub fn with_grants(grants: WasiGrants) -> (r: Self)
        ensures
            r.granted() == grants,
    {
        let mut builder = new_wasi_builder();
        if grants.stdout {
            grant_stdout(&mut builder);
        }
        if grants.stderr {
            grant_stderr(&mut builder);
        }
        WasiRuntimeContext { ctx: build_preview1(builder), grants }
    }

    /// A fresh context granted the host's standard output and error only.
    pub fn new() -> (r: Self)
        ensures
            r.granted() == (WasiGrants { stdout: true, stderr: true }),
    {
        WasiRuntimeContext::with_grants(WasiGrants::standard_streams())
    }

    /// What the context was granted.
    pub fn grants(&self) -> (r: WasiGrants)
        ensures
            r == self.granted(),
    {
        self.grants
    }

    /// The WASI context that the module sees.
    pub fn ctx_mut(&mut self) -> (r: &mut WasiP1Ctx) {
        &mut self.ctx
    }
}

/// Relies on wasmtime::Config::new: the default engine settings.
#[verifier::external_body]
fn new_config() -> Config {
    Config::new()
}

/// Relies on wasmtime::Config::consume_fuel.
#[verifier::external_body]
fn set_consume_fuel(config: &mut Config, enable: bool) {
    config.consume_fuel(enable);
}

/// Relies on wasmtime::Config::memory_reservation.
#[verifier::external_body]
fn set_memory_reservation(config: &mut Config, bytes: u64) {
    config.memory_reservation(bytes);
}

/// Relies on wasmtime::Config::memory_reservation_for_growth.
#[verifier::external_body]
fn set_memory_reservation_for_growth(config: &mut Config, bytes: u64) {
    config.memory_reservation_for_growth(bytes);
}

/// Relies on wasmtime::Config::memory_guard_size.
#[verifier::external_body]
fn set_memory_guard_size(config: &mut Config, bytes: u64) {
    config.memory_guard_size(bytes);
}

/// Relies on wasmtime::Engine::new: an engine with those settings for the
/// host, or the reason it cannot have one.
#[verifier::external_body]
fn new_engine(config: &Config) -> Result<Engine, String> {
    Engine::new(config).map_err(|e| format!("{e:?}"))
}

/// Relies on wasmtime::Store::new and wasmtime::Linker::new, both on
/// `engine`, so that the linker and the store always share their engine.
#[verifier::external_body]
fn open_sandbox(engine: Engine, data: WasiRuntimeContext) -> Sandbox {
    let store = Store::new(&engine, data);
    let linker = Linker::new(&engine);
    Sandbox { engine, store, linker }
}

/// Relies on wasmtime_wasi::preview1::add_to_linker_sync: defines the WASI
/// preview 1 imports over the store's context, and nothing else.
#[verifier::external_body]
fn link_wasi(sandbox: &mut Sandbox) -> Result<(), String> {
    wasmtime_wasi::preview1::add_to_linker_sync(
        &mut sandbox.linker,
        |c: &mut WasiRuntimeContext| c.ctx_mut(),
    ).map_err(|e| format!("{e:?}"))
}

/// Relies on wasmtime::Store::set_fuel: the budget of instructions the run
/// may execute; it fails only on an engine without fuel.
#[verifier::external_body]
fn set_fuel(sandbox: &mut Sandbox, fuel: u64) -> Result<(), String> {
    sandbox.store.set_fuel(fuel).map_err(|e| format!("{e:?}"))
}

/// Relies on wasmtime::Module::from_binary with the sandbox's own engine:
/// validates and compiles the bytes, which the result keeps.
#[verifier::external_body]
fn compile_module(sandbox: Sandbox, code: Vec<u8>) -> (r: Result<LoadedModule, String>)
    ensures
        r is Ok <==> wasm_compiles(code@),
        r matches Ok(l) ==> l.code@ == code@,
{
    let Sandbox { engine, store, linker } = sandbox;
    match Module::from_binary(&engine, &code) {
        Ok(module) => Ok(LoadedModule { parts: CompiledParts { store, linker, module }, code }),
        Err(e) => Err(format!("{e:?}")),
    }
}

/// Relies on wasmtime::Linker::instantiate, with the store, linker and module
/// of one engine: resolves the imports, failing on one that the linker does
/// not define with that type, and runs the module's initialisation.
#[verifier::external_body]
fn instantiate_module(loaded: LoadedModule) -> (r: Result<LiveInstance, String>)
    ensures
        r matches Ok(live) ==> live.code@ == loaded.code@,
        !imports_resolve_in_wasi(loaded.code@) ==> r is Err,
{
    let LoadedModule { parts: CompiledParts { mut store, linker, module }, code } = loaded;
    match linker.instantiate(&mut store, &module) {
        Ok(instance) => Ok(LiveInstance { parts: InstanceParts { store, instance }, code }),
        Err(e) => Err(format!("{e:?}")),
    }
}

/// Relies on wasmtime::Instance::get_typed_func, with the instance's own
/// store: the exported function of that name taking and returning nothing,
/// found exactly when the module exports one, as its export types are fixed
/// by its bytes.
#[verifier::external_body]
fn lookup_entry(live: LiveInstance, name: &str) -> (r: Option<EntryPoint>)
    ensures
        r is Some <==> exports_unit_func(live.code@, name@),
{
    let LiveInstance { parts: InstanceParts { mut store, instance }, code: _ } = live;
    instance.get_typed_func::<(), ()>(&mut store, name).ok().map(|func| EntryPoint { store, func })
}

/// Relies on wasmtime::TypedFunc::call, with the function's own store on an
/// engine without async support: runs it, catching any trap.
#[verifier::external_body]
fn call_entry(entry: EntryPoint) -> Result<(), String> {
    let EntryPoint { mut store, func } = entry;
    func.call(&mut store, ()).map_err(|e| format!("{e:?}"))
}

/// The outcome of a start routine's call.
pub fn outcome_of_call(call: Result<(), String>) -> (r: SandboxOutcome)
    ensures
        call is Ok <==> r is Completed,
        call matches Err(e) ==> r matches SandboxOutcome::Trapped(m) && m@ == e@,
{
    match call {
        Ok(()) => SandboxOutcome::Completed,
        Err(e) => SandboxOutcome::Trapped(e),
    }
}

/// The outcome once the start routine was looked up: `None` where the
/// module exports none, else what its call returned.
pub fn outcome_after_lookup(call: Option<Result<(), String>>) -> (r: SandboxOutcome)
    ensures
        call is None <==> r is EntryPointAbsent,
        call matches Some(Ok(_)) <==> r is Completed,
        call matches Some(Err(e)) ==> r matches SandboxOutcome::Trapped(m) && m@ == e@,
        !(r is InstantiationFailed),
{
    match call {
        None => SandboxOutcome::EntryPointAbsent,
        Some(c) => outcome_of_call(c),
    }
}

/// An engine that meters fuel and whose linear memories reserve a bounded
/// amount of address space, so that memory accesses are checked.
fn sandbox_engine() -> Result<Engine, String> {
    let mut config = new_config();
    set_consume_fuel(&mut config, true);
    set_memory_reservation(&mut config, MEMORY_RESERVATION);
    set_memory_reservation_for_growth(&mut config, MEMORY_RESERVATION_FOR_GROWTH);
    set_memory_guard_size(&mut config, MEMORY_GUARD_SIZE);
    new_engine(&config)
}

/// Runs the module `code` in a sandbox of its own, with a budget of `fuel`
/// instructions, and reports how it ended; running out of fuel is a trap.
/// Nothing of the run survives it. WASI calls block on a runtime of their
/// own, so this is not to be called from inside an async task.
pub fn execute_with_fuel(code: &[u8], fuel: u64) -> (r: SandboxOutcome)
    ensures
        outcome_fits(code@, r),
{
    let engine = match sandbox_engine() {
        Ok(e) => e,
        Err(e) => return SandboxOutcome::InstantiationFailed(e),
    };
    let mut sandbox = open_sandbox(engine, WasiRuntimeContext::new());
    if let Err(e) = link_wasi(&mut sandbox) {
        return SandboxOutcome::InstantiationFailed(e);
    }
    if let Err(e) = set_fuel(&mut sandbox, fuel) {
        return SandboxOutcome::InstantiationFailed(e);
    }
    let loaded = match compile_module(sandbox, vstd::slice::slice_to_vec(code)) {
        Ok(m) => m,
        Err(e) => return SandboxOutcome::InstantiationFailed(e),
    };
    let live = match instantiate_module(loaded) {
        Ok(i) => i,
        Err(e) => return SandboxOutcome::InstantiationFailed(e),
    };
    let call = match lookup_entry(live, ENTRY_SYMBOL) {
        None => None,
        Some(start) => Some(call_entry(start)),
    };
    outcome_after_lookup(call)
}

/// Runs the module `code` in a sandbox of its own, with no fuel limit.
pub fn execute(code: &[u8]) -> (r: SandboxOutcome)
    ensures
        outcome_fits(code@, r),
{
    execute_with_fuel(code, UNLIMITED_FUEL)
}

/// The result a request reports for an outcome: success when the module ran
/// to its end or had nothing to run, its reason otherwise.
pub fn outcome_to_result(o: SandboxOutcome) -> (r: Result<(), String>)
    ensures
        r is Ok <==> (o is Completed || o is EntryPointAbsent),
        o matches SandboxOutcome::Trapped(m) ==> r matches Err(e) && e@ == m@,
        o matches SandboxOutcome::InstantiationFailed(m) ==> r matches Err(e) && e@ == m@,
{
    match o {
        SandboxOutcome::Completed => Ok(()),
        SandboxOutcome::EntryPointAbsent => Ok(()),
        SandboxOutcome::Trapped(m) => Err(m),
        SandboxOutcome::InstantiationFailed(m) => Err(m),
    }
}

/// Runs the module of a request and reports how it ended.
pub fn on_req(req: &ExecutionRequestEvent) -> (r: SandboxOutcome)
    ensures
        outcome_fits(req.code@, r),
{
    execute(req.code.as_slice())
}

impl SandboxOutcome {
    /// Whether the run ended without a fault: the module completed or had
    /// nothing to run.
    pub fn is_ok(&self) -> (r: bool)
        ensures
            r <==> (self is Completed || self is EntryPointAbsent),
    {
        match self {
            SandboxOutcome::Completed => true,
            SandboxOutcome::EntryPointAbsent => true,
            _ => false,
        }
    }
}

} // verus!
