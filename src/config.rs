use vstd::prelude::*;
use vstd::string::*;

verus! {

/// Default TCP port of the remote radio node.
pub const DEFAULT_REMOTE_PORT: u16 = 4403;

/// Default port of the local web server.
pub const DEFAULT_WEB_PORT: u16 = 8080;

/// Length of a session secret: two 128-bit identifiers as hex digits.
pub const SECRET_LEN: usize = 64;

/// The persisted settings record.
#[derive(Debug, Clone)]
pub struct Config {
    /// Address of the remote radio node.
    pub meshtastic_ip: String,
    /// TCP port of the remote radio node.
    pub meshtastic_port: u16,
    /// Port of the local web server.
    pub web_port: u16,
    /// Start with the user's session.
    pub auto_start: bool,
    /// Opaque token the server uses for its own sessions.
    pub session_secret: String,
    /// Whether first-run setup has been completed.
    pub setup_completed: bool,
}

/// A lower-case hexadecimal digit.
pub open spec fn is_lower_hex(c: char) -> bool {
    ('0' <= c && c <= '9') || ('a' <= c && c <= 'f')
}

/// A well-formed session secret: 64 lower-case hexadecimal digits.
pub open spec fn is_secret(s: Seq<char>) -> bool {
    &&& s.len() == SECRET_LEN
    &&& forall|i: int| 0 <= i < s.len() ==> #[trigger] is_lower_hex(s[i])
}

/// The record that is created on first access, around a given secret.
pub open spec fn is_default_with(c: Config, secret: Seq<char>) -> bool {
    &&& c.meshtastic_ip@ == "192.168.1.100"@
    &&& c.meshtastic_port == DEFAULT_REMOTE_PORT
    &&& c.web_port == DEFAULT_WEB_PORT
    &&& !c.auto_start
    &&& c.session_secret@ == secret
    &&& !c.setup_completed
}

/// Relies on uuid::Uuid::new_v4 for a random identifier, and on the `Simple`
/// formatter of uuid, which writes its 16 bytes as 32 lower-case hex digits.
#[verifier::external_body]
fn random_simple_uuid() -> (r: String)
    ensures
        r@.len() == 32,
        forall|i: int| 0 <= i < r@.len() ==> #[trigger] is_lower_hex(r@[i]),
{
    uuid::Uuid::new_v4().simple().to_string()
}

/// A session secret made of two identifiers: the digits of the first
/// followed by those of the second.
pub fn secret_from(first: &str, second: &str) -> (r: String)
    ensures
        r@ == first@ + second@,
{
    String::from_str(first).concat(second)
}

/// A fresh session secret: two random identifiers, hex digits only, joined
/// by `secret_from`.
pub fn generate_secret() -> (r: String)
    ensures
        is_secret(r@),
{
    let first = random_simple_uuid();
    let second = random_simple_uuid();
    let r = secret_from(first.as_str(), second.as_str());
    assert forall|i: int| 0 <= i < r@.len() implies #[trigger] is_lower_hex(r@[i]) by {
        if i >= 32 {
            assert(r@[i] == second@[i - 32]);
        } else {
            assert(r@[i] == first@[i]);
        }
    }
    r
}

impl Config {
    /// The default record around a given secret.
    pub fn with_secret(session_secret: String) -> (r: Config)
        ensures
            is_default_with(r, session_secret@),
    {
        proof {
            reveal_strlit("192.168.1.100");
        }
        Config {
            meshtastic_ip: String::from_str("192.168.1.100"),
            meshtastic_port: DEFAULT_REMOTE_PORT,
            web_port: DEFAULT_WEB_PORT,
            auto_start: false,
            session_secret,
            setup_completed: false,
        }
    }

    /// Whether first-run setup is still to be done.
    pub fn needs_setup(&self) -> (r: bool)
        ensures
            r == !self.setup_completed,
    {
        !self.setup_completed
    }

    /// Marks first-run setup as done; every other field is kept.
    pub fn complete_setup(&mut self)
        ensures
            marked_set_up(*old(self), *final(self)),
    {
        self.setup_completed = true;
    }
}

/// `after` is `before` with setup marked as completed, all else kept.
pub open spec fn marked_set_up(before: Config, after: Config) -> bool {
    &&& after.setup_completed
    &&& after.meshtastic_ip == before.meshtastic_ip
    &&& after.meshtastic_port == before.meshtastic_port
    &&& after.web_port == before.web_port
    &&& after.auto_start == before.auto_start
    &&& after.session_secret == before.session_secret
}

/// What reading the store yields for what it holds: the stored record as it
/// is, with nothing to write back; or, where nothing is stored yet, a default
/// record with a fresh secret, which must then be written.
pub open spec fn load_outcome(stored: Option<Config>, r: (Config, bool)) -> bool {
    match stored {
        Some(c) => r.0 == c && !r.1,
        None => is_default_with(r.0, r.0.session_secret@) && is_secret(r.0.session_secret@) && r.1,
    }
}

/// What the store holds after a read that yielded `r`.
pub open spec fn stored_after_load(stored: Option<Config>, r: (Config, bool)) -> Option<Config> {
    if r.1 {
        Some(r.0)
    } else {
        stored
    }
}

/// Decides what a read of the store yields, given what the store holds
/// (`None` when no settings file exists). The flag tells whether the record
/// must be written back.
pub fn resolve_load(stored: Option<Config>) -> (r: (Config, bool))
    ensures
        load_outcome(stored, r),
{
    match stored {
        Some(c) => (c, false),
        None => (Config::default(), true),
    }
}

/// Saving a record and reading it back yields the same record; reading a
/// store that holds nothing yields a default record with a 64-character
/// secret.
pub proof fn lemma_save_then_load(c: Config, r: (Config, bool), fresh: (Config, bool))
    requires
        load_outcome(Some(c), r),
        load_outcome(None, fresh),
    ensures
        r.0 == c,
        fresh.0.session_secret@.len() == SECRET_LEN,
        is_default_with(fresh.0, fresh.0.session_secret@),
{
}

/// Two reads in a row, with only the read's own write between them, yield
/// the same secret.
pub proof fn lemma_secret_is_stable(stored: Option<Config>, first: (Config, bool), second: (Config, bool))
    requires
        load_outcome(stored, first),
        load_outcome(stored_after_load(stored, first), second),
    ensures
        second.0.session_secret == first.0.session_secret,
        second.0 == first.0,
{
}

/// A record marked as set up, once saved, reads back as not needing setup.
pub proof fn lemma_setup_persists(before: Config, after: Config, r: (Config, bool))
    requires
        marked_set_up(before, after),
        load_outcome(Some(after), r),
    ensures
        r.0.setup_completed,
        r.0.meshtastic_ip == before.meshtastic_ip,
        r.0.meshtastic_port == before.meshtastic_port,
        r.0.web_port == before.web_port,
        r.0.auto_start == before.auto_start,
        r.0.session_secret == before.session_secret,
{
}

impl Default for Config {
    /// The record created on first access, with a freshly generated secret.
    fn default() -> (r: Config)
        ensures
            is_default_with(r, r.session_secret@),
            is_secret(r.session_secret@),
    {
        Config::with_secret(generate_secret())
    }
}

} // verus!
