use vstd::prelude::*;

verus! {

/// A wall-clock instant, in microseconds since the Unix epoch (UTC).
pub type Micros = i64;

/// The metadata record kept for each index in the meta database.
#[derive(Clone, Debug)]
pub struct IndexMeta {
    pub uuid: u128,
    pub created_at: Micros,
    pub updated_at: Micros,
    pub primary_key: Option<String>,
}

/// What a metadata record holds, as mathematical values.
pub struct MetaView {
    pub uuid: u128,
    pub created_at: int,
    pub updated_at: int,
    pub primary_key: Option<Seq<char>>,
}

impl View for IndexMeta {
    type V = MetaView;

    open spec fn view(&self) -> MetaView {
        MetaView {
            uuid: self.uuid,
            created_at: self.created_at as int,
            updated_at: self.updated_at as int,
            primary_key: opt_str_view(self.primary_key),
        }
    }
}

/// The record that a creation at `now` stores.
pub open spec fn fresh_record(uuid: u128, primary_key: Option<Seq<char>>, now: int) -> MetaView {
    MetaView { uuid, created_at: now, updated_at: now, primary_key }
}

/// The record `m` after an update committed at `now`.
pub open spec fn touched_record(m: MetaView, now: int) -> MetaView {
    MetaView { updated_at: now, ..m }
}

/// Relies on chrono's `Utc::now` and `DateTime::timestamp_micros`: the current
/// wall-clock time. Nothing is known of the value.
#[verifier::external_body]
pub(crate) fn now_micros() -> (r: Micros) {
    chrono::Utc::now().timestamp_micros()
}

/// The view of an optional string.
pub open spec fn opt_str_view(o: Option<String>) -> Option<Seq<char>> {
    match o {
        Some(s) => Some(s@),
        None => None,
    }
}

/// The errors that the index actor reports.
#[derive(Clone, Debug)]
pub enum IndexError {
    /// A failure of the index itself or of a worker; the message describes it.
    Error(String),
    /// An index was to be created where one already exists.
    IndexAlreadyExists,
    /// The operation needs an index that does not exist.
    UnexistingIndex,
    /// A failure of the key-value engine; the message describes it.
    HeedError(String),
}

impl IndexMeta {
    /// A fresh record: created and last updated at `now`.
    pub fn new(uuid: u128, primary_key: Option<String>, now: Micros) -> (r: IndexMeta)
        ensures
            r.uuid == uuid,
            r.created_at == now,
            r.updated_at == now,
            r.primary_key == primary_key,
            r@ == fresh_record(uuid, opt_str_view(primary_key), now as int),
    {
        IndexMeta { uuid, created_at: now, updated_at: now, primary_key }
    }

    /// The record after an update committed at `now`: only `updated_at` moves.
    pub fn touched(&self, now: Micros) -> (r: IndexMeta)
        ensures
            r.uuid == self.uuid,
            r.created_at == self.created_at,
            r.updated_at == now,
            opt_str_view(r.primary_key) == opt_str_view(self.primary_key),
            r@ == touched_record(self@, now as int),
    {
        let primary_key = match &self.primary_key {
            Some(s) => Some(s.clone()),
            None => None,
        };
        IndexMeta { uuid: self.uuid, created_at: self.created_at, updated_at: now, primary_key }
    }

    pub fn uuid(&self) -> (r: u128)
        ensures
            r == self.uuid,
    {
        self.uuid
    }

    pub fn created_at(&self) -> (r: Micros)
        ensures
            r == self.created_at,
    {
        self.created_at
    }

    pub fn updated_at(&self) -> (r: Micros)
        ensures
            r == self.updated_at,
    {
        self.updated_at
    }

    pub fn primary_key(&self) -> (r: Option<&str>)
        ensures
            match r {
                Some(s) => self.primary_key is Some && s@ == self.primary_key->0@,
                None => self.primary_key is None,
            },
    {
        match &self.primary_key {
            Some(s) => Some(s.as_str()),
            None => None,
        }
    }
}

} // verus!
