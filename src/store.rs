use vstd::prelude::*;

verus! {

/// One write sent to the key-value store that holds the sessions. Each
/// session lives under one key, as a hash of named fields.
#[derive(Clone, Debug)]
pub enum StoreCommand {
    /// Sets the named fields of the hash at `key`, creating it if absent.
    SetFields { key: String, fields: Vec<(String, String)> },
    /// Gives the whole key a lifetime of `seconds` from now.
    Expire { key: String, seconds: u64 },
    /// Gives one field of the hash a lifetime of `seconds` from now.
    ExpireField { key: String, field: String, seconds: u64 },
    /// Removes the key.
    Delete { key: String },
}

/// A store command over plain text.
pub enum CommandView {
    SetFields { key: Seq<char>, fields: Seq<(Seq<char>, Seq<char>)> },
    Expire { key: Seq<char>, seconds: nat },
    ExpireField { key: Seq<char>, field: Seq<char>, seconds: nat },
    Delete { key: Seq<char> },
}

pub open spec fn field_pair_view(p: (String, String)) -> (Seq<char>, Seq<char>) {
    (p.0@, p.1@)
}

impl View for StoreCommand {
    type V = CommandView;

    open spec fn view(&self) -> CommandView {
        match self {
            StoreCommand::SetFields { key, fields } => CommandView::SetFields {
                key: key@,
                fields: fields@.map_values(|p: (String, String)| field_pair_view(p)),
            },
            StoreCommand::Expire { key, seconds } => CommandView::Expire {
                key: key@,
                seconds: *seconds as nat,
            },
            StoreCommand::ExpireField { key, field, seconds } => CommandView::ExpireField {
                key: key@,
                field: field@,
                seconds: *seconds as nat,
            },
            StoreCommand::Delete { key } => CommandView::Delete { key: key@ },
        }
    }
}

/// The commands of a list, over plain text.
pub open spec fn commands_view(cs: Seq<StoreCommand>) -> Seq<CommandView> {
    cs.map_values(|c: StoreCommand| c@)
}

/// A stored field: its value and the second from which it is gone.
pub struct FieldState {
    pub value: Seq<char>,
    pub expires_at: Option<int>,
}

/// A stored hash: its fields and the second from which the whole key is gone.
pub struct RecordState {
    pub fields: Map<Seq<char>, FieldState>,
    pub expires_at: Option<int>,
}

/// The contents of the store: one hash for each key.
pub type StoreState = Map<Seq<char>, RecordState>;

pub open spec fn alive(expires_at: Option<int>, now: int) -> bool {
    match expires_at {
        None => true,
        Some(t) => now < t,
    }
}

/// Whether `key` names a live record at second `now`.
pub open spec fn key_live(st: StoreState, key: Seq<char>, now: int) -> bool {
    st.contains_key(key) && alive(st[key].expires_at, now)
}

/// What a read of one field of `key` returns at second `now`.
pub open spec fn read_field(st: StoreState, key: Seq<char>, field: Seq<char>, now: int) -> Option<
    Seq<char>,
> {
    if key_live(st, key, now) && st[key].fields.contains_key(field) && alive(
        st[key].fields[field].expires_at,
        now,
    ) {
        Some(st[key].fields[field].value)
    } else {
        None
    }
}

/// The record at `key` as a write at second `now` finds it: an expired
/// record counts as absent.
pub open spec fn record_at(st: StoreState, key: Seq<char>, now: int) -> RecordState {
    if key_live(st, key, now) {
        st[key]
    } else {
        RecordState { fields: Map::empty(), expires_at: None }
    }
}

/// Setting fields in order; setting a field drops its own lifetime.
pub open spec fn set_fields(
    fields: Map<Seq<char>, FieldState>,
    pairs: Seq<(Seq<char>, Seq<char>)>,
) -> Map<Seq<char>, FieldState>
    decreases pairs.len(),
{
    if pairs.len() == 0 {
        fields
    } else {
        let last = pairs.last();
        set_fields(fields, pairs.drop_last()).insert(
            last.0,
            FieldState { value: last.1, expires_at: None },
        )
    }
}

/// The store after one command, run at second `now`.
pub open spec fn apply(st: StoreState, c: CommandView, now: int) -> StoreState {
    match c {
        CommandView::SetFields { key, fields } => {
            let r = record_at(st, key, now);
            st.insert(key, RecordState { fields: set_fields(r.fields, fields), ..r })
        },
        CommandView::Expire { key, seconds } => {
            if key_live(st, key, now) {
                st.insert(key, RecordState { expires_at: Some(now + seconds), ..st[key] })
            } else {
                st
            }
        },
        CommandView::ExpireField { key, field, seconds } => {
            if key_live(st, key, now) && st[key].fields.contains_key(field) {
                let f = st[key].fields[field];
                st.insert(
                    key,
                    RecordState {
                        fields: st[key].fields.insert(
                            field,
                            FieldState { expires_at: Some(now + seconds), ..f },
                        ),
                        ..st[key]
                    },
                )
            } else {
                st
            }
        },
        CommandView::Delete { key } => st.remove(key),
    }
}

/// The store after a batch of commands, all run at second `now` as one
/// transaction.
pub open spec fn apply_all(st: StoreState, cs: Seq<CommandView>, now: int) -> StoreState
    decreases cs.len(),
{
    if cs.len() == 0 {
        st
    } else {
        apply(apply_all(st, cs.drop_last(), now), cs.last(), now)
    }
}

} // verus!
