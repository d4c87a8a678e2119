//! Runtime configuration: an immutable snapshot of engine settings,
//! produced once by a fluent builder and consumed by exactly one runtime.
//!
//! A zero in a numeric field means "use the engine default".

use vstd::prelude::*;

verus! {

/// Immutable configuration snapshot for a JavaScript runtime.
///
/// Built by [`RuntimeConfigBuilder::build`]; never mutated afterwards, so
/// later changes to a builder cannot affect a configuration it already
/// produced.
pub struct RuntimeConfig {
    pub init_heap_size: u32,
    pub max_heap_size: u32,
    pub enable_eval: bool,
    pub enable_jit: bool,
    pub enable_es6_proxy: bool,
    pub enable_es6_block_scoping: bool,
    pub enable_intl: bool,
    pub enable_microtask_queue: bool,
    pub enable_generator: bool,
    pub enable_hermes_internal: bool,
    pub enable_sample_profiling: bool,
    pub native_stack_gap: u32,
    pub max_num_registers: u32,
}

/// Builder for [`RuntimeConfig`] with a fluent API.
pub struct RuntimeConfigBuilder {
    pub init_heap_size: u32,
    pub max_heap_size: u32,
    pub enable_eval: bool,
    pub enable_jit: bool,
    pub enable_es6_proxy: bool,
    pub enable_es6_block_scoping: bool,
    pub enable_intl: bool,
    pub enable_microtask_queue: bool,
    pub enable_generator: bool,
    pub enable_hermes_internal: bool,
    pub enable_sample_profiling: bool,
    pub native_stack_gap: u32,
    pub max_num_registers: u32,
}

impl RuntimeConfigBuilder {
    /// The default settings a fresh builder starts from.
    pub open spec fn default_spec() -> RuntimeConfigBuilder {
        RuntimeConfigBuilder {
            init_heap_size: 0,
            max_heap_size: 0,
            enable_eval: true,
            enable_jit: false,
            enable_es6_proxy: true,
            enable_es6_block_scoping: false,
            enable_intl: true,
            enable_microtask_queue: false,
            enable_generator: true,
            enable_hermes_internal: true,
            enable_sample_profiling: false,
            native_stack_gap: 0,
            max_num_registers: 0,
        }
    }

    /// The configuration snapshot this builder would produce.
    pub open spec fn config_spec(self) -> RuntimeConfig {
        RuntimeConfig {
            init_heap_size: self.init_heap_size,
            max_heap_size: self.max_heap_size,
            enable_eval: self.enable_eval,
            enable_jit: self.enable_jit,
            enable_es6_proxy: self.enable_es6_proxy,
            enable_es6_block_scoping: self.enable_es6_block_scoping,
            enable_intl: self.enable_intl,
            enable_microtask_queue: self.enable_microtask_queue,
            enable_generator: self.enable_generator,
            enable_hermes_internal: self.enable_hermes_internal,
            enable_sample_profiling: self.enable_sample_profiling,
            native_stack_gap: self.native_stack_gap,
            max_num_registers: self.max_num_registers,
        }
    }

    /// Create a new builder with default settings.
    pub fn new() -> (b: RuntimeConfigBuilder)
        ensures
            b == RuntimeConfigBuilder::default_spec(),
    {
        RuntimeConfigBuilder {
            init_heap_size: 0,
            max_heap_size: 0,
            enable_eval: true,
            enable_jit: false,
            enable_es6_proxy: true,
            enable_es6_block_scoping: false,
            enable_intl: true,
            enable_microtask_queue: false,
            enable_generator: true,
            enable_hermes_internal: true,
            enable_sample_profiling: false,
            native_stack_gap: 0,
            max_num_registers: 0,
        }
    }

    /// Set the initial and maximum heap sizes, in bytes.
    pub fn heap_size(self, init_heap_size: u32, max_heap_size: u32) -> (b: RuntimeConfigBuilder)
        ensures
            b == (RuntimeConfigBuilder { init_heap_size, max_heap_size, ..self }),
    {
        RuntimeConfigBuilder { init_heap_size, max_heap_size, ..self }
    }

    /// Enable or disable `eval()`.
    pub fn enable_eval(self, enable: bool) -> (b: RuntimeConfigBuilder)
        ensures
            b == (RuntimeConfigBuilder { enable_eval: enable, ..self }),
    {
        RuntimeConfigBuilder { enable_eval: enable, ..self }
    }

    /// Enable or disable the JIT.
    pub fn enable_jit(self, enable: bool) -> (b: RuntimeConfigBuilder)
        ensures
            b == (RuntimeConfigBuilder { enable_jit: enable, ..self }),
    {
        RuntimeConfigBuilder { enable_jit: enable, ..self }
    }

    /// Enable or disable ES6 Proxy support.
    pub fn enable_es6_proxy(self, enable: bool) -> (b: RuntimeConfigBuilder)
        ensures
            b == (RuntimeConfigBuilder { enable_es6_proxy: enable, ..self }),
    {
        RuntimeConfigBuilder { enable_es6_proxy: enable, ..self }
    }

    /// Enable or disable ES6 block scoping.
    pub fn enable_es6_block_scoping(self, enable: bool) -> (b: RuntimeConfigBuilder)
        ensures
            b == (RuntimeConfigBuilder { enable_es6_block_scoping: enable, ..self }),
    {
        RuntimeConfigBuilder { enable_es6_block_scoping: enable, ..self }
    }

    /// Enable or disable the Intl APIs.
    pub fn enable_intl(self, enable: bool) -> (b: RuntimeConfigBuilder)
        ensures
            b == (RuntimeConfigBuilder { enable_intl: enable, ..self }),
    {
        RuntimeConfigBuilder { enable_intl: enable, ..self }
    }

    /// Enable or disable the microtask queue.
    pub fn enable_microtask_queue(self, enable: bool) -> (b: RuntimeConfigBuilder)
        ensures
            b == (RuntimeConfigBuilder { enable_microtask_queue: enable, ..self }),
    {
        RuntimeConfigBuilder { enable_microtask_queue: enable, ..self }
    }

    /// Enable or disable generators.
    pub fn enable_generator(self, enable: bool) -> (b: RuntimeConfigBuilder)
        ensures
            b == (RuntimeConfigBuilder { enable_generator: enable, ..self }),
    {
        RuntimeConfigBuilder { enable_generator: enable, ..self }
    }

    /// Enable or disable the engine's internal diagnostics object.
    pub fn enable_hermes_internal(self, enable: bool) -> (b: RuntimeConfigBuilder)
        ensures
            b == (RuntimeConfigBuilder { enable_hermes_internal: enable, ..self }),
    {
        RuntimeConfigBuilder { enable_hermes_internal: enable, ..self }
    }

    /// Enable or disable the sampling profiler.
    pub fn enable_sample_profiling(self, enable: bool) -> (b: RuntimeConfigBuilder)
        ensures
            b == (RuntimeConfigBuilder { enable_sample_profiling: enable, ..self }),
    {
        RuntimeConfigBuilder { enable_sample_profiling: enable, ..self }
    }

    /// Set the native stack gap, in bytes.
    pub fn native_stack_gap(self, gap: u32) -> (b: RuntimeConfigBuilder)
        ensures
            b == (RuntimeConfigBuilder { native_stack_gap: gap, ..self }),
    {
        RuntimeConfigBuilder { native_stack_gap: gap, ..self }
    }

    /// Set the maximum number of registers.
    pub fn max_num_registers(self, num: u32) -> (b: RuntimeConfigBuilder)
        ensures
            b == (RuntimeConfigBuilder { max_num_registers: num, ..self }),
    {
        RuntimeConfigBuilder { max_num_registers: num, ..self }
    }

    /// Build the configuration snapshot.
    ///
    /// The builder is consumed; the produced configuration is a plain value
    /// that no later builder operation can reach.
    pub fn build(self) -> (c: RuntimeConfig)
        ensures
            c == self.config_spec(),
    {
        RuntimeConfig {
            init_heap_size: self.init_heap_size,
            max_heap_size: self.max_heap_size,
            enable_eval: self.enable_eval,
            enable_jit: self.enable_jit,
            enable_es6_proxy: self.enable_es6_proxy,
            enable_es6_block_scoping: self.enable_es6_block_scoping,
            enable_intl: self.enable_intl,
            enable_microtask_queue: self.enable_microtask_queue,
            enable_generator: self.enable_generator,
            enable_hermes_internal: self.enable_hermes_internal,
            enable_sample_profiling: self.enable_sample_profiling,
            native_stack_gap: self.native_stack_gap,
            max_num_registers: self.max_num_registers,
        }
    }
}

impl Default for RuntimeConfigBuilder {
    fn default() -> (b: RuntimeConfigBuilder)
        ensures
            b == RuntimeConfigBuilder::default_spec(),
    {
        RuntimeConfigBuilder::new()
    }
}

impl Default for RuntimeConfig {
    fn default() -> (c: RuntimeConfig)
        ensures
            c == RuntimeConfigBuilder::default_spec().config_spec(),
    {
        RuntimeConfigBuilder::new().build()
    }
}

} // verus!
