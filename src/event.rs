use vstd::prelude::*;

verus! {

/// An audit event: a timestamp and a message, immutable once built.
#[derive(Debug, Clone, PartialEq, Eq)]
pub struct AuditLog {
    pub timestamp: i64,
    pub message: String,
}

/// The shape in which the remote sink takes one event: the event's fields
/// and the destination it is written to.
#[derive(Debug, Clone, PartialEq, Eq)]
pub struct RemoteLogRecord {
    pub message: String,
    pub timestamp: i64,
    pub log_group_name: String,
    pub log_stream_name: String,
}

/// The record that carries `event` to the destination `group` / `stream`.
pub open spec fn record_of(event: AuditLog, group: String, stream: String) -> RemoteLogRecord {
    RemoteLogRecord {
        message: event.message,
        timestamp: event.timestamp,
        log_group_name: group,
        log_stream_name: stream,
    }
}

impl AuditLog {
    pub fn new(timestamp: i64, message: String) -> (r: AuditLog)
        ensures
            r.timestamp == timestamp,
            r.message == message,
    {
        AuditLog { timestamp, message }
    }

    pub fn timestamp(&self) -> (r: i64)
        ensures
            r == self.timestamp,
    {
        self.timestamp
    }

    pub fn message(&self) -> (r: &String)
        ensures
            r == &self.message,
    {
        &self.message
    }

    /// Projects the event into the record that the sink takes, writing it to
    /// `group` / `stream`. The event is consumed: each event is dispatched once.
    pub fn into_record(self, group: &String, stream: &String) -> (r: RemoteLogRecord)
        ensures
            r == record_of(self, *group, *stream),
            r.message@ == self.message@,
            r.timestamp == self.timestamp,
            r.log_group_name@ == group@,
            r.log_stream_name@ == stream@,
    {
        RemoteLogRecord {
            message: self.message,
            timestamp: self.timestamp,
            log_group_name: group.clone(),
            log_stream_name: stream.clone(),
        }
    }
}

} // verus!
