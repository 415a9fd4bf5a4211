use vstd::prelude::*;
use crate::constants::{
    CSRF_TOKEN_KEY, DISCORD_ACCESS_TOKEN_KEY, DISCORD_REFRESH_TOKEN_KEY, FIVE_MINUTES, ONE_MONTH,
    USER_ID_KEY, USER_ROLE_KEY,
};
use crate::model::{UserRole, lemma_role_name_round_trip, role_name, role_of_name};
use crate::session::{access_token_ttl, init_commands_view, save_commands_view, session_key_of};
use crate::store::{
    CommandView, FieldState, StoreState, apply, apply_all, key_live, read_field, record_at,
    set_fields,
};

verus! {

/// The field names of a session record are pairwise distinct.
pub proof fn lemma_field_names_distinct()
    ensures
        CSRF_TOKEN_KEY@ != USER_ID_KEY@,
        CSRF_TOKEN_KEY@ != USER_ROLE_KEY@,
        CSRF_TOKEN_KEY@ != DISCORD_ACCESS_TOKEN_KEY@,
        CSRF_TOKEN_KEY@ != DISCORD_REFRESH_TOKEN_KEY@,
        USER_ID_KEY@ != USER_ROLE_KEY@,
        USER_ID_KEY@ != DISCORD_ACCESS_TOKEN_KEY@,
        USER_ID_KEY@ != DISCORD_REFRESH_TOKEN_KEY@,
        USER_ROLE_KEY@ != DISCORD_ACCESS_TOKEN_KEY@,
        USER_ROLE_KEY@ != DISCORD_REFRESH_TOKEN_KEY@,
        DISCORD_ACCESS_TOKEN_KEY@ != DISCORD_REFRESH_TOKEN_KEY@,
{
    reveal_strlit("csrf_token");
    reveal_strlit("user_id");
    reveal_strlit("user_role");
    reveal_strlit("discord_access_token");
    reveal_strlit("discord_refresh_token");
    assert(CSRF_TOKEN_KEY@.len() == 10);
    assert(USER_ID_KEY@.len() == 7);
    assert(USER_ROLE_KEY@.len() == 9);
    assert(DISCORD_ACCESS_TOKEN_KEY@.len() == 20);
    assert(DISCORD_REFRESH_TOKEN_KEY@.len() == 21);
}

/// A batch of one command is that command.
proof fn lemma_apply_one(st: StoreState, cs: Seq<CommandView>, now: int)
    requires
        cs.len() == 1,
    ensures
        apply_all(st, cs, now) == apply(st, cs[0], now),
{
    assert(cs.drop_last() =~= Seq::<CommandView>::empty());
    assert(apply_all(st, cs.drop_last(), now) == st);
}

/// Setting a list of fields one by one, where every name is new to the ones
/// after it, leaves each at its value with no lifetime of its own.
proof fn lemma_set_fields_has(
    fields: Map<Seq<char>, FieldState>,
    pairs: Seq<(Seq<char>, Seq<char>)>,
    i: int,
)
    requires
        0 <= i < pairs.len(),
        forall|j: int| i < j < pairs.len() ==> pairs[j].0 != pairs[i].0,
    ensures
        set_fields(fields, pairs).contains_key(pairs[i].0),
        set_fields(fields, pairs)[pairs[i].0] == (FieldState { value: pairs[i].1, expires_at: None }),
    decreases pairs.len(),
{
    if i < pairs.len() - 1 {
        lemma_set_fields_has(fields, pairs.drop_last(), i);
    }
}

/// A pending login's CSRF token can be read back from the moment the login
/// starts until five minutes have passed, and never after, though nothing
/// deletes it.
pub proof fn lemma_pending_state_lifetime(
    st: StoreState,
    session_id: Seq<char>,
    csrf: Seq<char>,
    started: int,
    now: int,
)
    requires
        started <= now,
    ensures
        read_field(
            apply_all(st, init_commands_view(session_id, csrf), started),
            session_key_of(session_id),
            CSRF_TOKEN_KEY@,
            now,
        ) == (if now < started + FIVE_MINUTES {
            Some(csrf)
        } else {
            None
        }),
{
    let cs = init_commands_view(session_id, csrf);
    let key = session_key_of(session_id);
    let st1 = apply(st, cs[0], started);
    lemma_apply_one(st, cs.drop_last(), started);
    let pairs = seq![(CSRF_TOKEN_KEY@, csrf)];
    lemma_set_fields_has(record_at(st, key, started).fields, pairs, 0);
    assert(key_live(st1, key, started));
    assert(st1[key].fields.contains_key(CSRF_TOKEN_KEY@));
    assert(st1[key].fields[CSRF_TOKEN_KEY@].expires_at is None);
}

/// A login callback passes the CSRF check exactly when the token it echoes
/// is the one stored when the login started and five minutes have not
/// passed.
pub proof fn lemma_init_check(
    st: StoreState,
    session_id: Seq<char>,
    csrf: Seq<char>,
    echoed: Seq<char>,
    started: int,
    now: int,
)
    requires
        started <= now,
    ensures
        (read_field(
            apply_all(st, init_commands_view(session_id, csrf), started),
            session_key_of(session_id),
            CSRF_TOKEN_KEY@,
            now,
        ) == Some(echoed)) <==> (echoed == csrf && now < started + FIVE_MINUTES),
{
    lemma_pending_state_lifetime(st, session_id, csrf, started, now);
}

/// What a session record holds at `now` after it was saved at `saved`, for
/// the month that it lives: the identity, role and refresh token saved, and
/// the provider access token only until its own lifetime has passed,
/// whatever the record's.
pub proof fn lemma_save_then_read(
    st: StoreState,
    session_id: Seq<char>,
    user_id: Seq<char>,
    role: UserRole,
    access_token: Seq<char>,
    refresh_token: Seq<char>,
    expires_in: nat,
    saved: int,
    now: int,
)
    requires
        saved <= now < saved + ONE_MONTH,
    ensures
        ({
            let st2 = apply_all(
                st,
                save_commands_view(
                    session_id,
                    user_id,
                    role,
                    access_token,
                    refresh_token,
                    expires_in,
                ),
                saved,
            );
            let key = session_key_of(session_id);
            &&& key_live(st2, key, now)
            &&& read_field(st2, key, USER_ID_KEY@, now) == Some(user_id)
            &&& read_field(st2, key, USER_ROLE_KEY@, now) == Some(role_name(role))
            &&& role_of_name(role_name(role)) == Some(role)
            &&& read_field(st2, key, DISCORD_REFRESH_TOKEN_KEY@, now) == Some(refresh_token)
            &&& read_field(st2, key, DISCORD_ACCESS_TOKEN_KEY@, now) == (if now < saved
                + access_token_ttl(expires_in) {
                Some(access_token)
            } else {
                None
            })
        }),
{
    lemma_field_names_distinct();
    lemma_role_name_round_trip(role);
    let cs = save_commands_view(
        session_id,
        user_id,
        role,
        access_token,
        refresh_token,
        expires_in,
    );
    let key = session_key_of(session_id);
    let st1 = apply(st, cs[0], saved);
    lemma_apply_one(st, cs.drop_last().drop_last(), saved);
    let st2 = apply(st1, cs[1], saved);
    assert(apply_all(st, cs.drop_last(), saved) == st2);
    let pairs = seq![
        (USER_ID_KEY@, user_id),
        (USER_ROLE_KEY@, role_name(role)),
        (DISCORD_ACCESS_TOKEN_KEY@, access_token),
        (DISCORD_REFRESH_TOKEN_KEY@, refresh_token),
    ];
    let f0 = record_at(st, key, saved).fields;
    lemma_set_fields_has(f0, pairs, 0);
    lemma_set_fields_has(f0, pairs, 1);
    lemma_set_fields_has(f0, pairs, 2);
    lemma_set_fields_has(f0, pairs, 3);
    assert(key_live(st1, key, saved));
}

/// Once a session's key is deleted, no later read finds the session.
pub proof fn lemma_invalidated_session_is_gone(
    st: StoreState,
    session_id: Seq<char>,
    deleted: int,
    now: int,
)
    ensures
        !key_live(
            apply(st, CommandView::Delete { key: session_key_of(session_id) }, deleted),
            session_key_of(session_id),
            now,
        ),
{
}

/// Renewing a live session keeps every field as it was and keeps the
/// record for a month from the renewal.
pub proof fn lemma_renewal_keeps_fields(
    st: StoreState,
    session_id: Seq<char>,
    renewed: int,
    now: int,
)
    requires
        key_live(st, session_key_of(session_id), renewed),
        renewed <= now < renewed + ONE_MONTH,
    ensures
        ({
            let key = session_key_of(session_id);
            let st2 = apply(
                st,
                CommandView::Expire { key, seconds: ONE_MONTH as nat },
                renewed,
            );
            &&& key_live(st2, key, now)
            &&& st2[key].fields == st[key].fields
        }),
{
}

} // verus!
