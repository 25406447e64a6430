//! The committed channel configuration of a guild and its columns.

use vstd::prelude::*;

verus! {

/// The durable record of a guild: three optional channel references.
#[derive(Debug, Clone, Copy, PartialEq, Eq, Structural)]
pub struct GuildSettings {
    pub join_log: Option<u64>,
    pub leave_log: Option<u64>,
    pub mod_log: Option<u64>,
}

impl Default for GuildSettings {
    fn default() -> (settings: GuildSettings)
        ensures
            settings == GuildSettings::unset(),
    {
        GuildSettings { join_log: None, leave_log: None, mod_log: None }
    }
}

/// One column of the record. Each is written on its own.
#[derive(Debug, Clone, Copy, PartialEq, Eq, Structural)]
pub enum Column {
    JoinLog,
    LeaveLog,
    ModLog,
}

impl GuildSettings {
    /// The record with no channel set.
    pub open spec fn unset() -> GuildSettings {
        GuildSettings { join_log: None, leave_log: None, mod_log: None }
    }

    /// The value of one column.
    pub open spec fn column(self, column: Column) -> Option<u64> {
        match column {
            Column::JoinLog => self.join_log,
            Column::LeaveLog => self.leave_log,
            Column::ModLog => self.mod_log,
        }
    }

    /// The record after one column has been written: the others keep their value.
    pub open spec fn with_column(self, column: Column, value: Option<u64>) -> GuildSettings {
        match column {
            Column::JoinLog => GuildSettings { join_log: value, ..self },
            Column::LeaveLog => GuildSettings { leave_log: value, ..self },
            Column::ModLog => GuildSettings { mod_log: value, ..self },
        }
    }

    /// Where an exit is announced: a ban in the moderation log, or in the
    /// leave log where there is no moderation log; any other exit in the leave log.
    pub open spec fn exit_target(self, banned: bool) -> Option<u64> {
        if banned && self.mod_log is Some {
            self.mod_log
        } else {
            self.leave_log
        }
    }

    /// Where an exit is announced.
    pub fn exit_channel(&self, banned: bool) -> (channel: Option<u64>)
        ensures
            channel == self.exit_target(banned),
    {
        if banned {
            match self.mod_log {
                Some(id) => Some(id),
                None => self.leave_log,
            }
        } else {
            self.leave_log
        }
    }

    /// Reads one column.
    pub fn get(&self, column: Column) -> (value: Option<u64>)
        ensures
            value == self.column(column),
    {
        match column {
            Column::JoinLog => self.join_log,
            Column::LeaveLog => self.leave_log,
            Column::ModLog => self.mod_log,
        }
    }

    /// Writes one column and leaves the other two as they are.
    pub fn set(&mut self, column: Column, value: Option<u64>)
        ensures
            *final(self) == old(self).with_column(column, value),
    {
        match column {
            Column::JoinLog => {
                self.join_log = value;
            },
            Column::LeaveLog => {
                self.leave_log = value;
            },
            Column::ModLog => {
                self.mod_log = value;
            },
        }
    }
}

impl Column {
    /// The name of the column in the store.
    pub open spec fn name_text(self) -> Seq<char> {
        match self {
            Column::JoinLog => "join_log_channel_id"@,
            Column::LeaveLog => "leave_log_channel_id"@,
            Column::ModLog => "mod_log_channel_id"@,
        }
    }

    /// The name of the column in the store.
    pub fn name(&self) -> (name: &'static str)
        ensures
            name@ == self.name_text(),
    {
        match self {
            Column::JoinLog => "join_log_channel_id",
            Column::LeaveLog => "leave_log_channel_id",
            Column::ModLog => "mod_log_channel_id",
        }
    }
}

} // verus!
