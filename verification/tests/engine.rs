use mistctr::limits::{StoreLimitsAsync, StoreLimitsAsyncBuilder};
use wasmtime::{Config, Engine, Instance, Module, ResourceLimiter, Store};

/// A module with one memory of one page and a function `grow` that asks for
/// one page more and returns what `memory.grow` gave.
const GROWING_MODULE: [u8; 44] = [
    0x00, 0x61, 0x73, 0x6d, 0x01, 0x00, 0x00, 0x00, // header
    0x01, 0x05, 0x01, 0x60, 0x00, 0x01, 0x7f, // type: () -> i32
    0x03, 0x02, 0x01, 0x00, // function 0 has type 0
    0x05, 0x03, 0x01, 0x00, 0x01, // memory: at least one page
    0x07, 0x08, 0x01, 0x04, 0x67, 0x72, 0x6f, 0x77, 0x00, 0x00, // export "grow"
    0x0a, 0x08, 0x01, 0x06, 0x00, 0x41, 0x01, 0x40, 0x00, 0x0b, // i32.const 1; memory.grow
];

const PAGE: usize = 65536;

struct Guarded {
    limits: Guard,
}

struct Guard(StoreLimitsAsync);

impl ResourceLimiter for Guard {
    fn memory_growing(
        &mut self,
        current: usize,
        desired: usize,
        maximum: Option<usize>,
    ) -> wasmtime::Result<bool> {
        self.0.memory_growing(current, desired, maximum)
    }

    fn memory_grow_failed(&mut self, error: anyhow::Error) -> wasmtime::Result<()> {
        self.0.memory_grow_failed(error)
    }

    fn table_growing(
        &mut self,
        current: usize,
        desired: usize,
        maximum: Option<usize>,
    ) -> wasmtime::Result<bool> {
        self.0.table_growing(current, desired, maximum)
    }

    fn table_grow_failed(&mut self, error: anyhow::Error) -> wasmtime::Result<()> {
        self.0.table_grow_failed(error)
    }

    fn instances(&self) -> usize {
        self.0.instances()
    }

    fn tables(&self) -> usize {
        self.0.tables()
    }

    fn memories(&self) -> usize {
        self.0.memories()
    }
}

fn grow_under(limits: StoreLimitsAsync) -> wasmtime::Result<i32> {
    let mut config = Config::new();
    config.memory_reservation(0);
    config.memory_reservation_for_growth(4 * PAGE as u64);
    config.memory_guard_size(0);
    config.guard_before_linear_memory(false);
    let engine = Engine::new(&config)?;
    let module = Module::new(&engine, GROWING_MODULE)?;
    let mut store = Store::new(&engine, Guarded { limits: Guard(limits) });
    store.limiter(|state| &mut state.limits);
    let instance = Instance::new(&mut store, &module, &[])?;
    let grow = instance.get_typed_func::<(), i32>(&mut store, "grow")?;
    grow.call(&mut store, ())
}

#[test]
fn engine_grows_memory_within_the_limit() {
    let limits = StoreLimitsAsyncBuilder::new().memory_size(2 * PAGE).build();
    assert_eq!(grow_under(limits).expect("the call returns"), 1);
    assert_eq!(grow_under(StoreLimitsAsync::default()).expect("the call returns"), 1);
}

#[test]
fn engine_sees_a_failed_allocation_beyond_the_limit() {
    let limits = StoreLimitsAsyncBuilder::new().memory_size(PAGE).build();
    assert_eq!(grow_under(limits).expect("the call returns"), -1);
}

#[test]
fn engine_traps_beyond_the_limit_when_asked_to() {
    let limits = StoreLimitsAsyncBuilder::new().memory_size(PAGE).trap_on_grow_failure(true).build();
    let error = grow_under(limits).expect_err("the call traps");
    assert_eq!(
        error.root_cause().to_string(),
        "forcing trap when growing memory to 131072 bytes"
    );
}

#[test]
fn engine_refuses_to_instantiate_beyond_the_memory_ceiling() {
    let limits = StoreLimitsAsyncBuilder::new().memories(0).build();
    assert!(grow_under(limits).is_err());
    let limits = StoreLimitsAsyncBuilder::new().instances(0).build();
    assert!(grow_under(limits).is_err());
    let limits = StoreLimitsAsyncBuilder::new().memory_size(PAGE - 1).build();
    assert!(grow_under(limits).is_err());
}
