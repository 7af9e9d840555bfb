//! What a stack margin command is told about its target, and which part of
//! the task table it reads.

use crate::error::CommandError;
use crate::region::{Region, TaskId};
use crate::scan::word_at;
use vstd::prelude::*;

verus! {

/// Where the fields that the command needs lie, by the struct layouts of the
/// target's kernel.
#[derive(Clone, Copy, Debug, PartialEq, Eq, Structural)]
pub struct TaskLayout {
    /// The size of one record of the task table.
    pub record_size: u32,
    /// The offset, in a record, of the address of the task's descriptor.
    pub descriptor_offset: u32,
    /// The offset, in a descriptor, of the address at which the stack began.
    pub initial_stack_offset: u32,
}

/// Which tasks a session covers.
#[derive(Clone, Copy, Debug, PartialEq, Eq, Structural)]
pub enum Selection {
    AllTasks,
    SingleTask(u32),
    /// All tasks, but the supervisor's memory cannot be read.
    SupervisorExcluded,
}

/// What the session and the debug-info database say of the target.
#[derive(Clone, Debug, PartialEq, Eq)]
pub struct Target {
    pub attached: bool,
    pub booted: bool,
    /// The device is reached over a network, which keeps the supervisor's
    /// memory out of reach.
    pub degraded: bool,
    /// The task that a captured dump is restricted to, if any.
    pub selected: Option<TaskId>,
    pub regions: Vec<Region>,
    pub table_base: u32,
    pub layout: TaskLayout,
    /// The tasks' display names, by task index.
    pub tasks: Vec<String>,
}

impl Target {
    pub open spec fn count(&self) -> int {
        self.tasks@.len() as int
    }

    pub open spec fn record_size(&self) -> int {
        self.layout.record_size as int
    }

    /// What keeps the command from starting, checked in this order: the
    /// session, the layout, the extent of the task table, the selected task.
    pub open spec fn fault(&self) -> Option<CommandError> {
        if !self.attached {
            Some(CommandError::NotAttached)
        } else if !self.booted {
            Some(CommandError::NotBooted)
        } else if self.layout.descriptor_offset + 4 > self.layout.record_size {
            Some(CommandError::BadLayout)
        } else if self.table_base + self.count() * self.record_size() > u32::MAX {
            Some(CommandError::TableOutOfRange)
        } else {
            match self.selected {
                Some(TaskId::Task(i)) => if i >= self.count() {
                    Some(CommandError::TaskNotFound(i))
                } else {
                    None
                },
                _ => None,
            }
        }
    }

    pub open spec fn valid(&self) -> bool {
        self.fault() is None
    }

    pub open spec fn spec_selection(&self) -> Selection {
        match self.selected {
            Some(TaskId::Task(i)) => Selection::SingleTask(i),
            _ => if self.degraded {
                Selection::SupervisorExcluded
            } else {
                Selection::AllTasks
            },
        }
    }

    /// The offset into the task table at which the part to read starts: the
    /// selected task's record, or the record after the supervisor's where the
    /// supervisor cannot be read, or the start of the table.
    pub open spec fn read_offset(&self) -> int {
        match self.spec_selection() {
            Selection::AllTasks => 0,
            Selection::SingleTask(i) => i * self.record_size(),
            Selection::SupervisorExcluded => if self.count() == 0 {
                0
            } else {
                self.record_size()
            },
        }
    }

    /// The length of the part of the task table to read.
    pub open spec fn read_len(&self) -> int {
        match self.spec_selection() {
            Selection::AllTasks => self.count() * self.record_size(),
            Selection::SingleTask(i) => self.record_size(),
            Selection::SupervisorExcluded => if self.count() == 0 {
                0
            } else {
                (self.count() - 1) * self.record_size()
            },
        }
    }

    /// The first task at or after `from` that the command reports on.
    pub open spec fn next_in_scope(&self, from: int) -> Option<int> {
        match self.selected {
            Some(TaskId::Task(i)) => if from <= i {
                Some(i as int)
            } else {
                None
            },
            _ => if from < self.count() {
                Some(from)
            } else {
                None
            },
        }
    }

    /// The task's memory is out of reach in this session.
    pub open spec fn skipped(&self, task: int) -> bool {
        self.degraded && task == 0
    }

    /// Where in the part that was read the task's descriptor address lies.
    pub open spec fn descriptor_slot(&self, task: int) -> int {
        task * self.record_size() + self.layout.descriptor_offset - self.read_offset()
    }

    /// The address of the word that tells where the task's stack began.
    pub open spec fn initial_stack_slot(&self, block: Seq<u8>, task: int) -> int {
        word_at(block, self.descriptor_slot(task)) + self.layout.initial_stack_offset
    }

    /// How the session covers the tasks.
    #[verifier::when_used_as_spec(spec_selection)]
    pub fn selection(&self) -> (s: Selection)
        ensures
            s == self.spec_selection(),
    {
        match self.selected {
            Some(TaskId::Task(i)) => Selection::SingleTask(i),
            _ => if self.degraded {
                Selection::SupervisorExcluded
            } else {
                Selection::AllTasks
            },
        }
    }

    /// Checks that the command can run against this target.
    pub fn check(&self) -> (r: Result<(), CommandError>)
        ensures
            r == match self.fault() {
                Some(e) => Err::<(), CommandError>(e),
                None => Ok(()),
            },
    {
        if !self.attached {
            return Err(CommandError::NotAttached);
        }
        if !self.booted {
            return Err(CommandError::NotBooted);
        }
        if self.layout.record_size < 4 || self.layout.descriptor_offset > self.layout.record_size
            - 4 {
            return Err(CommandError::BadLayout);
        }
        let count: u128 = self.tasks.len() as u128;
        let record: u128 = self.layout.record_size as u128;
        assert(count * record <= 0x1_0000_0000_0000_0000 * 0x1_0000_0000) by (nonlinear_arith)
            requires
                0 <= count <= 0x1_0000_0000_0000_0000,
                0 <= record <= 0x1_0000_0000,
        ;
        if self.table_base as u128 + count * record > u32::MAX as u128 {
            return Err(CommandError::TableOutOfRange);
        }
        match self.selected {
            Some(TaskId::Task(i)) => {
                if i as u128 >= count {
                    return Err(CommandError::TaskNotFound(i));
                }
            },
            _ => {},
        }
        Ok(())
    }

    /// The offset into the task table of the part to read.
    pub(crate) fn table_offset(&self) -> (offset: u32)
        requires
            self.valid(),
        ensures
            offset == self.read_offset(),
    {
        proof {
            read_lies_in_table(*self);
        }
        match self.selection() {
            Selection::AllTasks => 0,
            Selection::SingleTask(i) => i * self.layout.record_size,
            Selection::SupervisorExcluded => if self.tasks.len() == 0 {
                0
            } else {
                self.layout.record_size
            },
        }
    }

    /// The length of the part of the task table to read.
    pub(crate) fn table_len(&self) -> (len: u32)
        requires
            self.valid(),
        ensures
            len == self.read_len(),
    {
        proof {
            read_lies_in_table(*self);
        }
        let record: u32 = self.layout.record_size;
        match self.selection() {
            Selection::AllTasks => {
                let count: u32 = self.tasks.len() as u32;
                count * record
            },
            Selection::SingleTask(_) => record,
            Selection::SupervisorExcluded => {
                if self.tasks.len() == 0 {
                    0
                } else {
                    let rest: u32 = (self.tasks.len() - 1) as u32;
                    rest * record
                }
            },
        }
    }

    /// The first task at or after `from` that the command reports on.
    pub(crate) fn task_in_scope(&self, from: u64) -> (task: Option<u32>)
        requires
            self.valid(),
        ensures
            match task {
                Some(t) => self.next_in_scope(from as int) == Some(t as int),
                None => self.next_in_scope(from as int) is None,
            },
    {
        proof {
            read_lies_in_table(*self);
        }
        match self.selected {
            Some(TaskId::Task(i)) => if from <= i as u64 {
                Some(i)
            } else {
                None
            },
            _ => if from < self.tasks.len() as u64 {
                Some(from as u32)
            } else {
                None
            },
        }
    }
}

/// Every record of a valid target's task table lies inside the table, and
/// the table inside the address space.
pub proof fn records_fit(target: Target, task: int)
    requires
        target.valid(),
        0 <= task < target.count(),
    ensures
        0 <= task * target.record_size(),
        task * target.record_size() + target.record_size() <= target.count()
            * target.record_size(),
        target.table_base + target.count() * target.record_size() <= u32::MAX,
        target.layout.descriptor_offset + 4 <= target.record_size(),
{
    let r = target.record_size();
    let c = target.count();
    assert(0 <= task * r && task * r + r <= c * r) by (nonlinear_arith)
        requires
            0 <= task < c,
            0 <= r,
    ;
}

/// The part of the task table to read lies inside the table.
pub proof fn read_lies_in_table(target: Target)
    requires
        target.valid(),
    ensures
        0 <= target.read_offset(),
        0 <= target.read_len(),
        target.read_offset() + target.read_len() <= target.count() * target.record_size(),
        target.table_base + target.read_offset() + target.read_len() <= u32::MAX,
        target.count() <= u32::MAX,
{
    let r = target.record_size();
    let c = target.count();
    assert(0 <= c <= c * r) by (nonlinear_arith)
        requires
            r >= 4,
            c >= 0,
    ;
    match target.spec_selection() {
        Selection::AllTasks => {},
        Selection::SingleTask(i) => {
            records_fit(target, i as int);
        },
        Selection::SupervisorExcluded => {
            if c > 0 {
                records_fit(target, c - 1);
            }
        },
    }
}

/// A task that is in scope and not skipped has its descriptor address inside
/// the part of the task table that is read.
pub proof fn descriptor_lies_in_block(target: Target, task: int)
    requires
        target.valid(),
        0 <= task,
        target.next_in_scope(task) == Some(task),
        !target.skipped(task),
    ensures
        0 <= target.descriptor_slot(task),
        target.descriptor_slot(task) + 4 <= target.read_len(),
{
    records_fit(target, task);
    if target.spec_selection() == Selection::SupervisorExcluded {
        let r = target.record_size();
        let c = target.count();
        assert((c - 1) * r == c * r - r) by (nonlinear_arith);
        assert(task * r >= r) by (nonlinear_arith)
            requires
                task >= 1,
                r >= 0,
        ;
    }
}

} // verus!
