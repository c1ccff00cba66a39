use vstd::prelude::*;
use vstd::string::*;
use crate::json::{
    decode_object_members, decode_optional_string, decode_string_map, encode_string,
    json_object_members, json_optional_string, json_string_map_entries, json_string_text,
    keys_unique, pairs_view,
};
use crate::text::{join_path, opt_view, path_join, same_text};

verus! {

/// Where the client keeps its state, and the passphrase of that store.
#[derive(Debug, Clone)]
pub struct SessionDB {
    pub db_path: String,
    pub db_pw: String,
}

/// The file that holds the session when no secret store is used.
#[derive(Debug, Clone)]
pub struct PlainSessionStorage {
    pub session_path: String,
}

/// How the session outlives the process.
#[derive(Debug, Clone)]
pub enum SessionStorage {
    Ephemeral,
    Plain(SessionDB, PlainSessionStorage),
    SecretService(SessionDB),
}

pub open spec fn session_db_of(s: SessionStorage) -> Option<SessionDB> {
    match s {
        SessionStorage::Ephemeral => None,
        SessionStorage::Plain(db, _) => Some(db),
        SessionStorage::SecretService(db) => Some(db),
    }
}

/// Whether a stored session can be looked for, given what was found on the machine: the
/// store directory, the session file, and a reachable secret service.
pub open spec fn store_exists(
    s: SessionStorage,
    db_path_exists: bool,
    session_path_exists: bool,
    secret_service_reachable: bool,
) -> bool {
    match s {
        SessionStorage::Ephemeral => false,
        SessionStorage::Plain(_, _) => db_path_exists && session_path_exists,
        SessionStorage::SecretService(_) => db_path_exists && secret_service_reachable,
    }
}

impl SessionStorage {
    pub fn session_store_exists(
        &self,
        db_path_exists: bool,
        session_path_exists: bool,
        secret_service_reachable: bool,
    ) -> (r: bool)
        ensures
            r == store_exists(
                *self,
                db_path_exists,
                session_path_exists,
                secret_service_reachable,
            ),
    {
        match self {
            SessionStorage::Ephemeral => false,
            SessionStorage::Plain(_, _) => db_path_exists && session_path_exists,
            SessionStorage::SecretService(_) => db_path_exists && secret_service_reachable,
        }
    }

    pub fn get_session_db(&self) -> (r: Option<SessionDB>)
        ensures
            r == session_db_of(*self),
    {
        match self {
            SessionStorage::Ephemeral => None,
            SessionStorage::Plain(db, _) | SessionStorage::SecretService(db) => Some(
                SessionDB { db_path: db.db_path.clone(), db_pw: db.db_pw.clone() },
            ),
        }
    }
}

/// The session storage that the settings ask for. `session_path` is the file of the plain
/// backend; without it the session goes to `session.dump` inside the directory `db_path`,
/// joined as `PathBuf::join` joins a relative name.
pub fn session_storage_from(
    persist_session: bool,
    use_secret_service: bool,
    db_path: String,
    db_pw: String,
    session_path: Option<String>,
) -> (r: SessionStorage)
    ensures
        !persist_session ==> r is Ephemeral,
        persist_session && use_secret_service ==> r == SessionStorage::SecretService(
            SessionDB { db_path, db_pw },
        ),
        persist_session && !use_secret_service ==> (r matches SessionStorage::Plain(db, plain)
            && db == (SessionDB { db_path, db_pw }) && plain.session_path@ == match session_path {
            Some(p) => p@,
            None => path_join(db_path@, "session.dump"@),
        }),
{
    if !persist_session {
        return SessionStorage::Ephemeral;
    }
    if use_secret_service {
        SessionStorage::SecretService(SessionDB { db_path, db_pw })
    } else {
        let session_path = match session_path {
            Some(p) => p,
            None => join_path(db_path.as_str(), "session.dump"),
        };
        SessionStorage::Plain(SessionDB { db_path, db_pw }, PlainSessionStorage { session_path })
    }
}

/// What the server handed out at login.
#[derive(Debug, Clone, PartialEq, Eq)]
pub struct Credential {
    pub user_id: String,
    pub device_id: String,
    pub access_token: String,
    pub refresh_token: Option<String>,
}

/// A credential and the point where the event stream resumes.
#[derive(Debug, Clone, PartialEq, Eq)]
pub struct StoredSession {
    pub credential: Credential,
    pub sync_token: Option<String>,
}

/// User, device, access token, refresh token, resumption token.
pub type SessionView = (Seq<char>, Seq<char>, Seq<char>, Option<Seq<char>>, Option<Seq<char>>);

impl View for StoredSession {
    type V = SessionView;

    open spec fn view(&self) -> SessionView {
        (
            self.credential.user_id@,
            self.credential.device_id@,
            self.credential.access_token@,
            opt_view(self.credential.refresh_token),
            opt_view(self.sync_token),
        )
    }
}

/// Why no session could be restored.
#[derive(Debug, Clone, Copy, PartialEq, Eq, Structural)]
pub enum RestoreError {
    NotFound,
    Corrupt,
}

pub open spec fn key_user() -> Seq<char> {
    "user_id"@
}

pub open spec fn key_device() -> Seq<char> {
    "device_id"@
}

pub open spec fn key_access() -> Seq<char> {
    "access_token"@
}

pub open spec fn key_refresh() -> Seq<char> {
    "refresh_token"@
}

pub open spec fn key_sync() -> Seq<char> {
    "sync_token"@
}

pub open spec fn opt_field(key: Seq<char>, value: Option<Seq<char>>) -> Seq<(Seq<char>, Seq<char>)> {
    match value {
        Some(v) => seq![(key, v)],
        None => seq![],
    }
}

/// The named fields that a persistent backend stores for a session: the refresh and
/// resumption tokens when present, then the access token, the user and the device.
pub open spec fn session_fields_of(v: SessionView) -> Seq<(Seq<char>, Seq<char>)> {
    opt_field(key_refresh(), v.3) + opt_field(key_sync(), v.4) + seq![
        (key_access(), v.2),
        (key_user(), v.0),
        (key_device(), v.1),
    ]
}

/// The value of the first field named `key`.
pub open spec fn lookup(fields: Seq<(Seq<char>, Seq<char>)>, key: Seq<char>) -> Option<Seq<char>>
    decreases fields.len(),
{
    if fields.len() == 0 {
        None
    } else if fields[0].0 == key {
        Some(fields[0].1)
    } else {
        lookup(fields.drop_first(), key)
    }
}

/// The session that looked-up fields describe: `None` when the user, the device or the
/// access token is missing; a missing refresh or resumption token is left out.
pub open spec fn session_from_lookups(
    access: Option<Seq<char>>,
    device: Option<Seq<char>>,
    user: Option<Seq<char>>,
    refresh: Option<Seq<char>>,
    sync: Option<Seq<char>>,
) -> Option<SessionView> {
    match (access, device, user) {
        (Some(a), Some(d), Some(u)) => Some((u, d, a, refresh, sync)),
        _ => None,
    }
}

pub open spec fn session_from_fields(fields: Seq<(Seq<char>, Seq<char>)>) -> Option<SessionView> {
    session_from_lookups(
        lookup(fields, key_access()),
        lookup(fields, key_device()),
        lookup(fields, key_user()),
        lookup(fields, key_refresh()),
        lookup(fields, key_sync()),
    )
}

pub open spec fn key_user_session() -> Seq<char> {
    "user_session"@
}

/// The text of the plain session file for a session: an object holding the user session,
/// whose refresh token is left out when absent, and the resumption token or `null`.
pub open spec fn session_file_text(v: SessionView) -> Seq<char> {
    "{\"user_session\":{\"user_id\":"@ + json_string_text(v.0) + ",\"device_id\":"@
        + json_string_text(v.1) + ",\"access_token\":"@ + json_string_text(v.2) + match v.3 {
        Some(t) => ",\"refresh_token\":"@ + json_string_text(t),
        None => Seq::<char>::empty(),
    } + "},\"sync_token\":"@ + match v.4 {
        Some(t) => json_string_text(t),
        None => "null"@,
    } + "}"@
}

/// The resumption token of a session file, given the members of its object: absent or
/// `null` is none; `None` when the member is neither a string nor `null`.
pub open spec fn sync_token_of(outer: Seq<(Seq<char>, Seq<char>)>) -> Option<Option<Seq<char>>> {
    match lookup(outer, key_sync()) {
        None => Some(None),
        Some(t) => json_optional_string(t),
    }
}

/// What a plain session file with this text restores: `Corrupt` unless it is an object
/// whose `user_session` is an object of strings holding the user, the device and the access
/// token, and whose `sync_token`, if present, is a string or `null`.
pub open spec fn decoded_session(text: Seq<char>) -> Result<SessionView, RestoreError> {
    match json_object_members(text) {
        None => Err(RestoreError::Corrupt),
        Some(outer) => match lookup(outer, key_user_session()) {
            None => Err(RestoreError::Corrupt),
            Some(user_text) => match json_string_map_entries(user_text) {
                None => Err(RestoreError::Corrupt),
                Some(inner) => match sync_token_of(outer) {
                    None => Err(RestoreError::Corrupt),
                    Some(sync) => match session_from_lookups(
                        lookup(inner, key_access()),
                        lookup(inner, key_device()),
                        lookup(inner, key_user()),
                        lookup(inner, key_refresh()),
                        sync,
                    ) {
                        None => Err(RestoreError::Corrupt),
                        Some(v) => Ok(v),
                    },
                },
            },
        },
    }
}

proof fn lemma_keys_distinct()
    ensures
        key_user() != key_device(),
        key_user() != key_access(),
        key_user() != key_refresh(),
        key_user() != key_sync(),
        key_device() != key_access(),
        key_device() != key_refresh(),
        key_device() != key_sync(),
        key_access() != key_refresh(),
        key_access() != key_sync(),
        key_refresh() != key_sync(),
{
    reveal_strlit("user_id");
    reveal_strlit("device_id");
    reveal_strlit("access_token");
    reveal_strlit("refresh_token");
    reveal_strlit("sync_token");
    assert(key_user().len() != key_device().len());
    assert(key_user().len() != key_access().len());
    assert(key_user().len() != key_refresh().len());
    assert(key_user()[0] != key_sync()[0]);
    assert(key_device().len() != key_access().len());
    assert(key_device().len() != key_refresh().len());
    assert(key_device().len() != key_sync().len());
    assert(key_access()[0] != key_refresh()[0]);
    assert(key_access().len() != key_sync().len());
    assert(key_refresh().len() != key_sync().len());
}

/// Every session is restored, field for field, from the fields that are stored for it.
pub proof fn lemma_session_fields_round_trip(v: SessionView)
    ensures
        session_from_fields(session_fields_of(v)) == Some(v),
        keys_unique(session_fields_of(v)),
{
    lemma_keys_distinct();
    let f = session_fields_of(v);
    reveal_with_fuel(lookup, 6);
    let tail = seq![(key_access(), v.2), (key_user(), v.0), (key_device(), v.1)];
    match (v.3, v.4) {
        (Some(r), Some(s)) => {
            assert(f =~= seq![(key_refresh(), r), (key_sync(), s)] + tail);
            assert(f.drop_first() =~= seq![(key_sync(), s)] + tail);
            assert(f.drop_first().drop_first() =~= tail);
        },
        (Some(r), None) => {
            assert(f =~= seq![(key_refresh(), r)] + tail);
            assert(f.drop_first() =~= tail);
        },
        (None, Some(s)) => {
            assert(f =~= seq![(key_sync(), s)] + tail);
            assert(f.drop_first() =~= tail);
        },
        (None, None) => {
            assert(f =~= tail);
        },
    }
    assert(tail.drop_first() =~= seq![(key_user(), v.0), (key_device(), v.1)]);
    assert(tail.drop_first().drop_first() =~= seq![(key_device(), v.1)]);
    assert(tail.drop_first().drop_first().drop_first() =~= Seq::<(Seq<char>, Seq<char>)>::empty());
}

fn push_field(fields: &mut Vec<(String, String)>, key: &str, value: &String)
    ensures
        pairs_view(final(fields)@) == pairs_view(old(fields)@).push((key@, value@)),
{
    let ghost prev = pairs_view(fields@);
    fields.push((String::from_str(key), value.clone()));
    assert(pairs_view(fields@) =~= prev.push((key@, value@)));
}

/// The fields that a persistent backend stores for `s`.
pub fn session_fields(s: &StoredSession) -> (r: Vec<(String, String)>)
    ensures
        pairs_view(r@) == session_fields_of(s@),
        keys_unique(pairs_view(r@)),
{
    proof {
        reveal_strlit("user_id");
        reveal_strlit("device_id");
        reveal_strlit("access_token");
        reveal_strlit("refresh_token");
        reveal_strlit("sync_token");
    }
    let mut fields: Vec<(String, String)> = Vec::new();
    assert(pairs_view(fields@) =~= Seq::<(Seq<char>, Seq<char>)>::empty());
    if let Some(t) = &s.credential.refresh_token {
        push_field(&mut fields, "refresh_token", t);
    }
    if let Some(t) = &s.sync_token {
        push_field(&mut fields, "sync_token", t);
    }
    assert(pairs_view(fields@) =~= opt_field(key_refresh(), s@.3) + opt_field(key_sync(), s@.4));
    push_field(&mut fields, "access_token", &s.credential.access_token);
    push_field(&mut fields, "user_id", &s.credential.user_id);
    push_field(&mut fields, "device_id", &s.credential.device_id);
    assert(pairs_view(fields@) =~= session_fields_of(s@));
    proof {
        lemma_session_fields_round_trip(s@);
    }
    fields
}

/// The value of the first field named `key`.
pub fn find_field(fields: &Vec<(String, String)>, key: &str) -> (r: Option<String>)
    ensures
        opt_view(r) == lookup(pairs_view(fields@), key@),
{
    let ghost fv = pairs_view(fields@);
    let mut i: usize = 0;
    assert(fv.subrange(0, fv.len() as int) =~= fv);
    while i < fields.len()
        invariant
            i <= fields.len(),
            fv == pairs_view(fields@),
            lookup(fv, key@) == lookup(fv.subrange(i as int, fv.len() as int), key@),
        decreases fields.len() - i,
    {
        let ghost rest = fv.subrange(i as int, fv.len() as int);
        assert(rest.drop_first() =~= fv.subrange(i + 1, fv.len() as int));
        if same_text(fields[i].0.as_str(), key) {
            return Some(fields[i].1.clone());
        }
        i = i + 1;
    }
    None
}

/// The session that looked-up fields describe; `NotFound` when the user, the device or the
/// access token is missing.
pub fn restore_from_lookups(
    access: Option<String>,
    device: Option<String>,
    user: Option<String>,
    refresh: Option<String>,
    sync: Option<String>,
) -> (r: Result<StoredSession, RestoreError>)
    ensures
        match session_from_lookups(
            opt_view(access),
            opt_view(device),
            opt_view(user),
            opt_view(refresh),
            opt_view(sync),
        ) {
            Some(v) => r is Ok && r->Ok_0@ == v,
            None => r == Err::<StoredSession, RestoreError>(RestoreError::NotFound),
        },
{
    match (access, device, user) {
        (Some(access_token), Some(device_id), Some(user_id)) => Ok(
            StoredSession {
                credential: Credential { user_id, device_id, access_token, refresh_token: refresh },
                sync_token: sync,
            },
        ),
        _ => Err(RestoreError::NotFound),
    }
}

/// The session that a list of stored fields describes; `NotFound` when the user, the device
/// or the access token is missing.
pub fn restore_from_fields(fields: &Vec<(String, String)>) -> (r: Result<StoredSession, RestoreError>)
    ensures
        match session_from_fields(pairs_view(fields@)) {
            Some(v) => r is Ok && r->Ok_0@ == v,
            None => r == Err::<StoredSession, RestoreError>(RestoreError::NotFound),
        },
{
    proof {
        reveal_strlit("user_id");
        reveal_strlit("device_id");
        reveal_strlit("access_token");
        reveal_strlit("refresh_token");
        reveal_strlit("sync_token");
    }
    let access = find_field(fields, "access_token");
    let device = find_field(fields, "device_id");
    let user = find_field(fields, "user_id");
    let refresh = find_field(fields, "refresh_token");
    let sync = find_field(fields, "sync_token");
    restore_from_lookups(access, device, user, refresh, sync)
}

fn quoted(s: &str) -> (r: String)
    ensures
        r@ == json_string_text(s@),
{
    match encode_string(s) {
        Some(t) => t,
        None => String::new(),
    }
}

/// The text of the plain session file for `s`.
pub fn encode_session(s: &StoredSession) -> (r: String)
    ensures
        r@ == session_file_text(s@),
{
    let mut out = String::from_str("{\"user_session\":{\"user_id\":");
    out.append(quoted(s.credential.user_id.as_str()).as_str());
    out.append(",\"device_id\":");
    out.append(quoted(s.credential.device_id.as_str()).as_str());
    out.append(",\"access_token\":");
    out.append(quoted(s.credential.access_token.as_str()).as_str());
    let ghost head = out@;
    if let Some(t) = &s.credential.refresh_token {
        out.append(",\"refresh_token\":");
        out.append(quoted(t.as_str()).as_str());
    }
    assert(out@ =~= head + match s@.3 {
        Some(t) => ",\"refresh_token\":"@ + json_string_text(t),
        None => Seq::<char>::empty(),
    });
    out.append("},\"sync_token\":");
    match &s.sync_token {
        Some(t) => out.append(quoted(t.as_str()).as_str()),
        None => out.append("null"),
    }
    out.append("}");
    assert(out@ =~= session_file_text(s@));
    out
}

/// The session held by the plain session file, given its text, or `None` when there is no
/// such file.
pub fn decode_session(content: Option<&str>) -> (r: Result<StoredSession, RestoreError>)
    ensures
        content is None ==> r == Err::<StoredSession, RestoreError>(RestoreError::NotFound),
        content matches Some(text) ==> match decoded_session(text@) {
            Ok(v) => r is Ok && r->Ok_0@ == v,
            Err(e) => r == Err::<StoredSession, RestoreError>(e),
        },
{
    proof {
        reveal_strlit("user_session");
        reveal_strlit("sync_token");
    }
    let text = match content {
        None => return Err(RestoreError::NotFound),
        Some(text) => text,
    };
    let outer = match decode_object_members(text) {
        None => return Err(RestoreError::Corrupt),
        Some(outer) => outer,
    };
    let user_text = match find_field(&outer, "user_session") {
        None => return Err(RestoreError::Corrupt),
        Some(t) => t,
    };
    let inner = match decode_string_map(user_text.as_str()) {
        None => return Err(RestoreError::Corrupt),
        Some(inner) => inner,
    };
    let sync = match find_field(&outer, "sync_token") {
        None => None,
        Some(t) => match decode_optional_string(t.as_str()) {
            None => return Err(RestoreError::Corrupt),
            Some(sync) => sync,
        },
    };
    proof {
        reveal_strlit("user_id");
        reveal_strlit("device_id");
        reveal_strlit("access_token");
        reveal_strlit("refresh_token");
    }
    let access = find_field(&inner, "access_token");
    let device = find_field(&inner, "device_id");
    let user = find_field(&inner, "user_id");
    let refresh = find_field(&inner, "refresh_token");
    match restore_from_lookups(access, device, user, refresh, sync) {
        Ok(session) => Ok(session),
        Err(_) => Err(RestoreError::Corrupt),
    }
}

} // verus!
