//! The resource limiter attached to one execution: ceilings on memory and
//! table growth, and on the number of instances, tables and memories.

use crate::foreign::{
    default_instance_limit, default_memory_limit, default_table_limit, error_from_message,
    error_with_context, in_context,
};
use crate::quantity::{decimal_string, decimal_text};
use vstd::prelude::*;
use vstd::string::StringExecFns;

verus! {

/// What the limiter answers to a growth request.
#[derive(Debug, Clone, Copy, PartialEq, Eq, Structural)]
pub enum GrowthVerdict {
    /// The growth may go on.
    Allow,
    /// The growth is refused; the running code sees a failed allocation.
    Deny,
    /// The growth is refused and the execution ends with a fatal error.
    Trap,
}

/// Whether a growth to `desired` stays within bounds: within the configured
/// limit where there is one, else within the maximum that the code declares,
/// where it declares one.
pub open spec fn growth_allowed(
    limit: Option<usize>,
    desired: usize,
    maximum: Option<usize>,
) -> bool {
    match limit {
        Some(limit) => desired <= limit,
        None => match maximum {
            Some(maximum) => desired <= maximum,
            None => true,
        },
    }
}

/// The verdict on a growth request: a refusal is a trap where the limiter is
/// set to trap, else a denial.
pub open spec fn growth_verdict(
    limit: Option<usize>,
    trap_on_grow_failure: bool,
    desired: usize,
    maximum: Option<usize>,
) -> GrowthVerdict {
    if growth_allowed(limit, desired, maximum) {
        GrowthVerdict::Allow
    } else if trap_on_grow_failure {
        GrowthVerdict::Trap
    } else {
        GrowthVerdict::Deny
    }
}

/// The message of the error that a trap on growth ends the execution with:
/// what was to grow, to which size, in which unit.
pub open spec fn growth_trap_text(what: Seq<char>, desired: usize, unit: Seq<char>) -> Seq<char> {
    "forcing trap when growing "@ + what + " to "@ + decimal_text(desired as nat) + " "@ + unit
}

/// Writes the message of a trap on growth.
pub fn growth_trap_message(what: &str, desired: usize, unit: &str) -> (message: String)
    ensures
        message@ == growth_trap_text(what@, desired, unit@),
{
    let mut message = String::from_str("forcing trap when growing ");
    message.append(what);
    message.append(" to ");
    let size = decimal_string(desired);
    message.append(size.as_str());
    message.append(" ");
    message.append(unit);
    message
}

/// The settings of a limiter.
pub struct LimitsView {
    pub memory_size: Option<usize>,
    pub table_elements: Option<usize>,
    pub instances: usize,
    pub tables: usize,
    pub memories: usize,
    pub trap_on_grow_failure: bool,
}

/// The settings of a limiter on which nothing was configured: no limit on
/// growth, ten thousand instances, tables and memories, and no traps.
pub open spec fn default_limits() -> LimitsView {
    LimitsView {
        memory_size: None,
        table_elements: None,
        instances: 10000,
        tables: 10000,
        memories: 10000,
        trap_on_grow_failure: false,
    }
}

/// The limiter of one execution.
#[derive(Debug)]
pub struct StoreLimitsAsync {
    memory_size: Option<usize>,
    table_elements: Option<usize>,
    instances: usize,
    tables: usize,
    memories: usize,
    trap_on_grow_failure: bool,
}

impl View for StoreLimitsAsync {
    type V = LimitsView;

    closed spec fn view(&self) -> LimitsView {
        LimitsView {
            memory_size: self.memory_size,
            table_elements: self.table_elements,
            instances: self.instances,
            tables: self.tables,
            memories: self.memories,
            trap_on_grow_failure: self.trap_on_grow_failure,
        }
    }
}

impl Clone for StoreLimitsAsync {
    fn clone(&self) -> (limits: Self)
        ensures
            limits == *self,
    {
        StoreLimitsAsync {
            memory_size: self.memory_size,
            table_elements: self.table_elements,
            instances: self.instances,
            tables: self.tables,
            memories: self.memories,
            trap_on_grow_failure: self.trap_on_grow_failure,
        }
    }
}

impl Default for StoreLimitsAsync {
    fn default() -> (limits: Self)
        ensures
            limits@ == default_limits(),
    {
        StoreLimitsAsync {
            memory_size: None,
            table_elements: None,
            instances: default_instance_limit(),
            tables: default_table_limit(),
            memories: default_memory_limit(),
            trap_on_grow_failure: false,
        }
    }
}

fn decide_growth(limit: Option<usize>, trap: bool, desired: usize, maximum: Option<usize>) -> (v:
    GrowthVerdict)
    ensures
        v == growth_verdict(limit, trap, desired, maximum),
{
    let allow = match limit {
        Some(limit) => desired <= limit,
        None => match maximum {
            Some(maximum) => desired <= maximum,
            None => true,
        },
    };
    if allow {
        GrowthVerdict::Allow
    } else if trap {
        GrowthVerdict::Trap
    } else {
        GrowthVerdict::Deny
    }
}

impl StoreLimitsAsync {
    /// The verdict of this limiter on a request to grow a memory to `desired`
    /// bytes.
    pub open spec fn memory_verdict(self, desired: usize, maximum: Option<usize>) -> GrowthVerdict {
        growth_verdict(self@.memory_size, self@.trap_on_grow_failure, desired, maximum)
    }

    /// The verdict of this limiter on a request to grow a table to `desired`
    /// elements.
    pub open spec fn table_verdict(self, desired: usize, maximum: Option<usize>) -> GrowthVerdict {
        growth_verdict(self@.table_elements, self@.trap_on_grow_failure, desired, maximum)
    }

    /// Decides on a request to grow a memory to `desired` bytes.
    pub fn check_memory_growth(&self, desired: usize, maximum: Option<usize>) -> (v: GrowthVerdict)
        ensures
            v == self.memory_verdict(desired, maximum),
    {
        decide_growth(self.memory_size, self.trap_on_grow_failure, desired, maximum)
    }

    /// Decides on a request to grow a table to `desired` elements.
    pub fn check_table_growth(&self, desired: usize, maximum: Option<usize>) -> (v: GrowthVerdict)
        ensures
            v == self.table_verdict(desired, maximum),
    {
        decide_growth(self.table_elements, self.trap_on_grow_failure, desired, maximum)
    }

    /// Answers a request to grow a memory from `current` to `desired` bytes:
    /// `Ok(true)` where it is allowed, `Ok(false)` where it is denied, and an
    /// error where the denial is a trap. The limiter itself never changes.
    pub fn memory_growing(&mut self, current: usize, desired: usize, maximum: Option<usize>) -> (r:
        Result<bool, anyhow::Error>)
        ensures
            *final(self) == *old(self),
            r is Err <==> old(self).memory_verdict(desired, maximum) == GrowthVerdict::Trap,
            r matches Ok(allow) ==> allow == (old(self).memory_verdict(desired, maximum)
                == GrowthVerdict::Allow),
    {
        match self.check_memory_growth(desired, maximum) {
            GrowthVerdict::Allow => Ok(true),
            GrowthVerdict::Deny => Ok(false),
            GrowthVerdict::Trap => Err(
                error_from_message(growth_trap_message("memory", desired, "bytes")),
            ),
        }
    }

    /// Answers a request to grow a table from `current` to `desired`
    /// elements, as [`StoreLimitsAsync::memory_growing`] does for a memory.
    pub fn table_growing(&mut self, current: usize, desired: usize, maximum: Option<usize>) -> (r:
        Result<bool, anyhow::Error>)
        ensures
            *final(self) == *old(self),
            r is Err <==> old(self).table_verdict(desired, maximum) == GrowthVerdict::Trap,
            r matches Ok(allow) ==> allow == (old(self).table_verdict(desired, maximum)
                == GrowthVerdict::Allow),
    {
        match self.check_table_growth(desired, maximum) {
            GrowthVerdict::Allow => Ok(true),
            GrowthVerdict::Deny => Ok(false),
            GrowthVerdict::Trap => Err(
                error_from_message(growth_trap_message("table", desired, "elements")),
            ),
        }
    }

    /// Takes note that the host failed to grow a memory that the limiter had
    /// allowed to grow. Where the limiter is set to trap, the failure comes
    /// back as the cause of an error that ends the execution; else it is
    /// passed over, and the running code sees a failed allocation.
    pub fn memory_grow_failed(&mut self, error: anyhow::Error) -> (r: Result<(), anyhow::Error>)
        ensures
            *final(self) == *old(self),
            r is Err <==> old(self)@.trap_on_grow_failure,
            r matches Err(trap) ==> trap == in_context(
                error,
                "forcing a memory growth failure to be a trap"@,
            ),
    {
        if self.trap_on_grow_failure {
            Err(error_with_context(error, "forcing a memory growth failure to be a trap"))
        } else {
            Ok(())
        }
    }

    /// Takes note that the host failed to grow a table, as
    /// [`StoreLimitsAsync::memory_grow_failed`] does for a memory.
    pub fn table_grow_failed(&mut self, error: anyhow::Error) -> (r: Result<(), anyhow::Error>)
        ensures
            *final(self) == *old(self),
            r is Err <==> old(self)@.trap_on_grow_failure,
            r matches Err(trap) ==> trap == in_context(
                error,
                "forcing a table growth failure to be a trap"@,
            ),
    {
        if self.trap_on_grow_failure {
            Err(error_with_context(error, "forcing a table growth failure to be a trap"))
        } else {
            Ok(())
        }
    }

    /// The number of instances that one store may hold.
    pub fn instances(&self) -> (limit: usize)
        ensures
            limit == self@.instances,
    {
        self.instances
    }

    /// The number of tables that one store may hold.
    pub fn tables(&self) -> (limit: usize)
        ensures
            limit == self@.tables,
    {
        self.tables
    }

    /// The number of linear memories that one store may hold.
    pub fn memories(&self) -> (limit: usize)
        ensures
            limit == self@.memories,
    {
        self.memories
    }
}

/// A request beyond the configured memory limit is never allowed: it is
/// denied, and where the limiter is set to trap it is a trap.
pub proof fn lemma_beyond_memory_limit(
    limits: StoreLimitsAsync,
    limit: usize,
    desired: usize,
    maximum: Option<usize>,
)
    requires
        limits@.memory_size == Some(limit),
        desired > limit,
    ensures
        limits.memory_verdict(desired, maximum) == if limits@.trap_on_grow_failure {
            GrowthVerdict::Trap
        } else {
            GrowthVerdict::Deny
        },
{
}

/// A request beyond the configured table limit is never allowed: it is
/// denied, and where the limiter is set to trap it is a trap.
pub proof fn lemma_beyond_table_limit(
    limits: StoreLimitsAsync,
    limit: usize,
    desired: usize,
    maximum: Option<usize>,
)
    requires
        limits@.table_elements == Some(limit),
        desired > limit,
    ensures
        limits.table_verdict(desired, maximum) == if limits@.trap_on_grow_failure {
            GrowthVerdict::Trap
        } else {
            GrowthVerdict::Deny
        },
{
}

/// Builds a [`StoreLimitsAsync`] setting by setting.
pub struct StoreLimitsAsyncBuilder(StoreLimitsAsync);

impl View for StoreLimitsAsyncBuilder {
    type V = LimitsView;

    closed spec fn view(&self) -> LimitsView {
        self.0@
    }
}

impl StoreLimitsAsyncBuilder {
    /// A builder that holds the default settings.
    pub fn new() -> (builder: Self)
        ensures
            builder@ == default_limits(),
    {
        StoreLimitsAsyncBuilder(StoreLimitsAsync::default())
    }

    /// Sets the number of bytes beyond which no linear memory may grow. The
    /// limit holds of each memory by itself.
    pub fn memory_size(self, limit: usize) -> (builder: Self)
        ensures
            builder@ == (LimitsView { memory_size: Some(limit), ..self@ }),
    {
        let mut limits = self.0;
        limits.memory_size = Some(limit);
        StoreLimitsAsyncBuilder(limits)
    }

    /// Sets the number of elements beyond which no table may grow. The limit
    /// holds of each table by itself.
    pub fn table_elements(self, limit: usize) -> (builder: Self)
        ensures
            builder@ == (LimitsView { table_elements: Some(limit), ..self@ }),
    {
        let mut limits = self.0;
        limits.table_elements = Some(limit);
        StoreLimitsAsyncBuilder(limits)
    }

    /// Sets the number of instances that one store may hold.
    pub fn instances(self, limit: usize) -> (builder: Self)
        ensures
            builder@ == (LimitsView { instances: limit, ..self@ }),
    {
        let mut limits = self.0;
        limits.instances = limit;
        StoreLimitsAsyncBuilder(limits)
    }

    /// Sets the number of tables that one store may hold.
    pub fn tables(self, tables: usize) -> (builder: Self)
        ensures
            builder@ == (LimitsView { tables, ..self@ }),
    {
        let mut limits = self.0;
        limits.tables = tables;
        StoreLimitsAsyncBuilder(limits)
    }

    /// Sets the number of linear memories that one store may hold.
    pub fn memories(self, memories: usize) -> (builder: Self)
        ensures
            builder@ == (LimitsView { memories, ..self@ }),
    {
        let mut limits = self.0;
        limits.memories = memories;
        StoreLimitsAsyncBuilder(limits)
    }

    /// Sets whether a refused growth ends the execution with a fatal error
    /// rather than letting the running code see a failed allocation.
    pub fn trap_on_grow_failure(self, trap: bool) -> (builder: Self)
        ensures
            builder@ == (LimitsView { trap_on_grow_failure: trap, ..self@ }),
    {
        let mut limits = self.0;
        limits.trap_on_grow_failure = trap;
        StoreLimitsAsyncBuilder(limits)
    }

    /// The limiter with the settings made so far.
    pub fn build(self) -> (limits: StoreLimitsAsync)
        ensures
            limits@ == self@,
    {
        self.0
    }
}

} // verus!
