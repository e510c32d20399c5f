//! Types shared by the services: configuration, money, directions and the
//! outbox event.
use vstd::prelude::*;

verus! {

/// How to reach the database.
#[derive(Debug, Clone)]
pub struct YdbConfig {
    pub connection_string: String,
    pub credentials: String,
}

impl YdbConfig {
    /// The configuration from the connection string and token settings;
    /// a setting that is absent takes its default (a local database, no
    /// token).
    pub fn from_values(connection_string: Option<String>, token: Option<String>) -> (r: YdbConfig)
        ensures
            r.connection_string@ == (match connection_string {
                Some(s) => s@,
                None => "grpc://localhost:2136?database=local"@,
            }),
            r.credentials@ == (match token {
                Some(t) => t@,
                None => Seq::<char>::empty(),
            }),
    {
        let connection_string = match connection_string {
            Some(s) => s,
            None => String::from_str("grpc://localhost:2136?database=local"),
        };
        let credentials = match token {
            Some(t) => t,
            None => String::new(),
        };
        YdbConfig { connection_string, credentials }
    }
}

/// An amount of money in a currency; the amount is a decimal text.
#[derive(Debug, Clone)]
pub struct Money {
    pub amount: String,
    pub currency_code: String,
}

/// Which way a transaction moves money.
#[derive(Debug, Clone, Copy, PartialEq, Eq)]
pub enum TransactionDirection {
    Debit,
    Credit,
}

/// An event recorded in the outbox, to be published.
#[derive(Debug, Clone)]
pub struct OutboxEvent {
    pub event_id: String,
    pub aggregate_type: String,
    pub aggregate_id: String,
    pub event_type: String,
    pub payload: String,
    pub status: String,
    pub created_at: i64,
    pub sent_at: Option<i64>,
    pub retry_count: u32,
}

impl OutboxEvent {
    /// A new event, pending, not yet sent or retried.
    pub fn pending(
        event_id: String,
        aggregate_type: String,
        aggregate_id: String,
        event_type: String,
        payload: String,
        created_at: i64,
    ) -> (r: OutboxEvent)
        ensures
            r.event_id == event_id,
            r.aggregate_type == aggregate_type,
            r.aggregate_id == aggregate_id,
            r.event_type == event_type,
            r.payload == payload,
            r.status@ == "PENDING"@,
            r.created_at == created_at,
            r.sent_at is None,
            r.retry_count == 0,
    {
        OutboxEvent {
            event_id,
            aggregate_type,
            aggregate_id,
            event_type,
            payload,
            status: String::from_str("PENDING"),
            created_at,
            sent_at: None,
            retry_count: 0,
        }
    }
}

} // verus!
