//! Agent configuration: the shared file, the per-agent file, and their
//! merge.  Reading and writing the TOML files is I/O and belongs to the
//! embedding application, which hands the parsed values in.

use vstd::prelude::*;
use crate::bytes::str_eq;
use crate::bytes::clone_string;

verus! {

/// Identity of an agent: its name, its subject, an optional description.
#[derive(Debug)]
pub struct AgentInfo {
    pub name: String,
    pub subject: String,
    pub about: Option<String>,
}

/// Relay endpoints and the optional private key.
#[derive(Debug)]
pub struct NostrConfig {
    /// Private key (hex or bech32); generated by the application when
    /// absent.
    pub private_key: Option<String>,
    /// Relay endpoints.
    pub relays: Vec<String>,
}

/// Where the language-model service listens and which model to use.
#[derive(Debug)]
pub struct OllamaConfig {
    pub host: String,
    pub model: String,
}

/// The encryption mode, as the configuration file spells it.
#[derive(Debug)]
pub struct EncryptionConfig {
    /// One of "optional", "required", "disabled".
    pub mode: String,
}

/// The configuration shared by all agents, with per-agent keys.
#[derive(Debug)]
pub struct SharedConfig {
    pub nostr: NostrConfig,
    pub ollama: OllamaConfig,
    pub encryption: EncryptionConfig,
    /// Private keys by agent identifier.
    pub keys: Vec<(String, String)>,
}

/// One agent's own configuration; absent sections fall back to the
/// shared configuration.
#[derive(Debug)]
pub struct AgentConfig {
    pub agent: AgentInfo,
    pub nostr: Option<NostrConfig>,
    pub ollama: Option<OllamaConfig>,
    pub encryption: Option<EncryptionConfig>,
}

/// The effective configuration of one agent after merging.
#[derive(Debug)]
pub struct MergedConfig {
    pub agent: AgentInfo,
    pub nostr: NostrConfig,
    pub ollama: OllamaConfig,
    pub encryption: EncryptionConfig,
}

pub fn default_relays() -> (r: Vec<String>)
    ensures
        r@.len() == 1,
        r@[0]@ == "wss://strfry.atlantislabs.space"@,
{
    let mut v: Vec<String> = Vec::new();
    v.push("wss://strfry.atlantislabs.space".to_owned());
    v
}

pub fn default_ollama_host() -> (r: String)
    ensures
        r@ == "http://localhost:11434"@,
{
    "http://localhost:11434".to_owned()
}

pub fn default_ollama_model() -> (r: String)
    ensures
        r@ == "llama3.2"@,
{
    "llama3.2".to_owned()
}

pub fn default_encryption_mode() -> (r: String)
    ensures
        r@ == "optional"@,
{
    "optional".to_owned()
}

impl Default for NostrConfig {
    fn default() -> (r: Self)
        ensures
            r.private_key is None,
            r.relays@.len() == 1,
    {
        NostrConfig { private_key: None, relays: default_relays() }
    }
}

impl Default for OllamaConfig {
    fn default() -> (r: Self)
        ensures
            r.host@ == "http://localhost:11434"@,
            r.model@ == "llama3.2"@,
    {
        OllamaConfig { host: default_ollama_host(), model: default_ollama_model() }
    }
}

impl Default for EncryptionConfig {
    fn default() -> (r: Self)
        ensures
            r.mode@ == "optional"@,
    {
        EncryptionConfig { mode: default_encryption_mode() }
    }
}

impl Default for SharedConfig {
    fn default() -> (r: Self)
        ensures
            r.nostr.private_key is None,
            r.keys@.len() == 0,
            r.encryption.mode@ == "optional"@,
    {
        SharedConfig {
            nostr: NostrConfig::default(),
            ollama: OllamaConfig::default(),
            encryption: EncryptionConfig::default(),
            keys: Vec::new(),
        }
    }
}

/// First index in `keys` stored under `id`, or `-1`.
pub open spec fn spec_key_index(keys: Seq<(String, String)>, id: Seq<char>) -> int
    decreases keys.len(),
{
    if keys.len() == 0 {
        -1
    } else if keys[0].0@ == id {
        0
    } else {
        let rest = spec_key_index(keys.drop_first(), id);
        if rest == -1 {
            -1
        } else {
            rest + 1
        }
    }
}

/// The key stored for `id`: the first entry's value, unless that entry
/// is empty or no entry exists.
pub open spec fn spec_stored_key(keys: Seq<(String, String)>, id: Seq<char>) -> Option<Seq<char>> {
    let i = spec_key_index(keys, id);
    if i == -1 {
        None
    } else if keys[i].1@.len() == 0 {
        None
    } else {
        Some(keys[i].1@)
    }
}

/// `spec_key_index` is either `-1` when no entry holds `id`, or the
/// first index that does.
proof fn lemma_key_index(keys: Seq<(String, String)>, id: Seq<char>)
    ensures
        spec_key_index(keys, id) == -1 ==> forall|j: int|
            0 <= j < keys.len() ==> (#[trigger] keys[j]).0@ != id,
        spec_key_index(keys, id) != -1 ==> 0 <= spec_key_index(keys, id) < keys.len()
            && keys[spec_key_index(keys, id)].0@ == id,
    decreases keys.len(),
{
    if keys.len() > 0 {
        lemma_key_index(keys.drop_first(), id);
        if spec_key_index(keys, id) == -1 {
            assert forall|j: int| 0 <= j < keys.len() implies (#[trigger] keys[j]).0@ != id by {
                if j > 0 {
                    assert(keys.drop_first()[j - 1] == keys[j]);
                }
            }
        }
    }
}

/// If index `i` holds `id` and no earlier index does, `i` is the first.
proof fn lemma_key_index_first(keys: Seq<(String, String)>, id: Seq<char>, i: int)
    requires
        0 <= i < keys.len(),
        keys[i].0@ == id,
        forall|j: int| 0 <= j < i ==> (#[trigger] keys[j]).0@ != id,
    ensures
        spec_key_index(keys, id) == i,
    decreases keys.len(),
{
    if i > 0 {
        assert(forall|j: int|
            0 <= j < keys.drop_first().len() ==> #[trigger] keys.drop_first()[j] == keys[j + 1]);
        lemma_key_index_first(keys.drop_first(), id, i - 1);
    }
}

impl SharedConfig {
    /// The private key stored for `agent_id`: the value of the first
    /// entry under that identifier, unless that entry is empty or no
    /// entry exists.
    pub fn get_key(&self, agent_id: &str) -> (r: Option<String>)
        ensures
            crate::wire::opt_view(r) == spec_stored_key(self.keys@, agent_id@),
    {
        let n = self.keys.len();
        let mut i: usize = 0;
        while i < n
            invariant
                n == self.keys@.len(),
                0 <= i <= n,
                forall|j: int| 0 <= j < i ==> (#[trigger] self.keys@[j]).0@ != agent_id@,
            decreases n - i,
        {
            if str_eq(self.keys[i].0.as_str(), agent_id) {
                proof {
                    lemma_key_index_first(self.keys@, agent_id@, i as int);
                }
                if self.keys[i].1.as_str().unicode_len() > 0 {
                    return Some(clone_string(&self.keys[i].1));
                }
                return None;
            }
            i += 1;
        }
        proof {
            lemma_key_index(self.keys@, agent_id@);
            if spec_key_index(self.keys@, agent_id@) != -1 {
                assert(false);
            }
        }
        None
    }
}

/// A copy of a relay list, contents preserved.
fn clone_relays(relays: &Vec<String>) -> (r: Vec<String>)
    ensures
        r@.len() == relays@.len(),
        forall|j: int| 0 <= j < relays@.len() ==> (#[trigger] r@[j])@ == relays@[j]@,
{
    let n = relays.len();
    let mut out: Vec<String> = Vec::new();
    let mut i: usize = 0;
    while i < n
        invariant
            n == relays@.len(),
            0 <= i <= n,
            out@.len() == i,
            forall|j: int| 0 <= j < i ==> (#[trigger] out@[j])@ == relays@[j]@,
        decreases n - i,
    {
        out.push(clone_string(&relays[i]));
        i += 1;
    }
    out
}

/// A copy of a relay-and-key section, contents preserved.
pub fn clone_nostr_config(c: &NostrConfig) -> (r: NostrConfig)
    ensures
        crate::wire::opt_view(r.private_key) == crate::wire::opt_view(c.private_key),
        r.relays@.len() == c.relays@.len(),
        forall|j: int| 0 <= j < c.relays@.len() ==> (#[trigger] r.relays@[j])@ == c.relays@[j]@,
{
    let private_key = match &c.private_key {
        Some(k) => Some(clone_string(k)),
        None => None,
    };
    NostrConfig { private_key, relays: clone_relays(&c.relays) }
}

impl MergedConfig {
    /// Merge an agent's configuration over the shared one: each section
    /// the agent sets wins whole; a missing private key falls back to
    /// the shared per-agent key table.  The merge hands the encryption
    /// mode string through as written; it is validated by
    /// `crate::policy::parse_encryption_mode` before a transport is
    /// constructed, and an unrecognized mode is a configuration error
    /// there, never silently defaulted.
    pub fn load(shared: &SharedConfig, agent_config: AgentConfig, agent_id: &str) -> (r:
        MergedConfig)
        ensures
            r.agent == agent_config.agent,
            agent_config.ollama is Some ==> r.ollama == agent_config.ollama->0,
            agent_config.ollama is None ==> r.ollama.host@ == shared.ollama.host@
                && r.ollama.model@ == shared.ollama.model@,
            agent_config.encryption is Some ==> r.encryption == agent_config.encryption->0,
            agent_config.encryption is None ==> r.encryption.mode@ == shared.encryption.mode@,
            agent_config.nostr is Some ==> r.nostr.relays == agent_config.nostr->0.relays,
            agent_config.nostr is None ==> r.nostr.relays@.len() == shared.nostr.relays@.len()
                && forall|j: int|
                0 <= j < shared.nostr.relays@.len() ==> (#[trigger] r.nostr.relays@[j])@
                    == shared.nostr.relays@[j]@,
            agent_config.nostr is Some && agent_config.nostr->0.private_key is Some
                ==> r.nostr.private_key == agent_config.nostr->0.private_key,
            agent_config.nostr is None && shared.nostr.private_key is Some
                ==> crate::wire::opt_view(r.nostr.private_key) == crate::wire::opt_view(
                shared.nostr.private_key,
            ),
            (agent_config.nostr is None && shared.nostr.private_key is None) || (
            agent_config.nostr is Some && agent_config.nostr->0.private_key is None)
                ==> crate::wire::opt_view(r.nostr.private_key) == spec_stored_key(
                shared.keys@,
                agent_id@,
            ),
    {
        let mut nostr = match agent_config.nostr {
            Some(n) => n,
            None => clone_nostr_config(&shared.nostr),
        };
        if nostr.private_key.is_none() {
            nostr.private_key = shared.get_key(agent_id);
        }
        let ollama = match agent_config.ollama {
            Some(o) => o,
            None => OllamaConfig {
                host: clone_string(&shared.ollama.host),
                model: clone_string(&shared.ollama.model),
            },
        };
        let encryption = match agent_config.encryption {
            Some(e) => e,
            None => EncryptionConfig { mode: clone_string(&shared.encryption.mode) },
        };
        MergedConfig { agent: agent_config.agent, nostr, ollama, encryption }
    }
}

} // verus!
