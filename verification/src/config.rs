//! The configuration store: a flat section/key/value table.
//!
//! Persistence lives with the surrounding application; this module owns the
//! table itself — lookup, update, the default document, and the snapshot
//! the gateway consumes. Entries are kept as a list of
//! `(section, key, value)` triples and the first match wins, so every
//! operation is pinned down by `cfg_lookup`.

use crate::gateway::ConfigData;
use vstd::prelude::*;
use vstd::string::StringExecFns;

verus! {

/// The value under `(section, key)`: the first matching triple wins.
pub open spec fn cfg_lookup(
    ts: Seq<(String, String, String)>,
    section: Seq<char>,
    key: Seq<char>,
) -> Option<Seq<char>>
    decreases ts.len(),
{
    if ts.len() == 0 {
        None
    } else if ts[0].0@ == section && ts[0].1@ == key {
        Some(ts[0].2@)
    } else {
        cfg_lookup(ts.skip(1), section, key)
    }
}

/// Looking a pair up after appending a triple: an existing binding still
/// wins; otherwise the new triple answers exactly the pair it names.
proof fn lemma_lookup_push(
    ts: Seq<(String, String, String)>,
    t: (String, String, String),
    s: Seq<char>,
    k: Seq<char>,
)
    ensures
        cfg_lookup(ts.push(t), s, k) == (match cfg_lookup(ts, s, k) {
            Some(v) => Some(v),
            None => if t.0@ == s && t.1@ == k {
                Some(t.2@)
            } else {
                None
            },
        }),
    decreases ts.len(),
{
    reveal_with_fuel(cfg_lookup, 3);
    if ts.len() == 0 {
        assert(ts.push(t).skip(1) =~= Seq::<(String, String, String)>::empty());
    } else {
        assert(ts.push(t).skip(1) =~= ts.skip(1).push(t));
        lemma_lookup_push(ts.skip(1), t, s, k);
    }
}

/// Where the first `i` triples miss `(s, k)` and the `i`-th hits it, the
/// lookup answers the `i`-th value.
proof fn lemma_lookup_first_match(
    ts: Seq<(String, String, String)>,
    i: int,
    s: Seq<char>,
    k: Seq<char>,
)
    requires
        0 <= i < ts.len(),
        forall|j: int| 0 <= j < i ==> !(ts[j].0@ == s && ts[j].1@ == k),
        ts[i].0@ == s && ts[i].1@ == k,
    ensures
        cfg_lookup(ts, s, k) == Some(ts[i].2@),
    decreases i,
{
    if i > 0 {
        assert(forall|j: int|
            0 <= j < i - 1 ==> ts.skip(1)[j] == ts[j + 1] && !(ts.skip(1)[j].0@ == s
                && ts.skip(1)[j].1@ == k));
        lemma_lookup_first_match(ts.skip(1), i - 1, s, k);
    }
}

/// Where no triple hits `(s, k)`, the lookup misses.
proof fn lemma_lookup_no_match(ts: Seq<(String, String, String)>, s: Seq<char>, k: Seq<char>)
    requires
        forall|j: int| 0 <= j < ts.len() ==> !(ts[j].0@ == s && ts[j].1@ == k),
    ensures
        cfg_lookup(ts, s, k) is None,
    decreases ts.len(),
{
    if ts.len() > 0 {
        assert(forall|j: int| 0 <= j < ts.skip(1).len() ==> ts.skip(1)[j] == ts[j + 1]);
        lemma_lookup_no_match(ts.skip(1), s, k);
    }
}

/// Replacing the triple at `i` by one that names the same pair leaves every
/// other pair's lookup unchanged.
proof fn lemma_lookup_update_other(
    ts: Seq<(String, String, String)>,
    i: int,
    t: (String, String, String),
    s2: Seq<char>,
    k2: Seq<char>,
)
    requires
        0 <= i < ts.len(),
        t.0@ == ts[i].0@,
        t.1@ == ts[i].1@,
        !(t.0@ == s2 && t.1@ == k2),
    ensures
        cfg_lookup(ts.update(i, t), s2, k2) == cfg_lookup(ts, s2, k2),
    decreases i,
{
    if i == 0 {
        assert(ts.update(0, t).skip(1) =~= ts.skip(1));
    } else {
        assert(ts.update(i, t).skip(1) =~= ts.skip(1).update(i - 1, t));
        lemma_lookup_update_other(ts.skip(1), i - 1, t, s2, k2);
    }
}

/// The section and key names the store uses are pairwise distinct where it
/// matters: no two of the nine stored pairs collide.
proof fn lemma_distinct_config_literals()
    ensures
        "llm"@ != "api_keys"@,
        "llm"@ != "translation"@,
        "llm"@ != "ui"@,
        "api_keys"@ != "translation"@,
        "api_keys"@ != "ui"@,
        "translation"@ != "ui"@,
        "provider"@ != "gemini_model"@,
        "provider"@ != "openai_model"@,
        "provider"@ != "ollama_url"@,
        "provider"@ != "ollama_model"@,
        "gemini_model"@ != "openai_model"@,
        "gemini_model"@ != "ollama_url"@,
        "gemini_model"@ != "ollama_model"@,
        "openai_model"@ != "ollama_url"@,
        "openai_model"@ != "ollama_model"@,
        "ollama_url"@ != "ollama_model"@,
        "gemini"@ != "openai"@,
        ""@ == Seq::<char>::empty(),
{
    reveal_strlit("llm");
    reveal_strlit("api_keys");
    reveal_strlit("translation");
    reveal_strlit("ui");
    reveal_strlit("provider");
    reveal_strlit("gemini");
    reveal_strlit("gemini_model");
    reveal_strlit("openai");
    reveal_strlit("openai_model");
    reveal_strlit("ollama_url");
    reveal_strlit("ollama_model");
    reveal_strlit("");
    assert("llm"@.len() == 3);
    assert("api_keys"@.len() == 8);
    assert("translation"@.len() == 11);
    assert("ui"@.len() == 2);
    assert("provider"@.len() == 8);
    assert("gemini"@.len() == 6);
    assert("openai"@.len() == 6);
    assert("gemini_model"@.len() == 12);
    assert("openai_model"@.len() == 12);
    assert("ollama_url"@.len() == 10);
    assert("ollama_model"@.len() == 12);
    assert(""@.len() == 0);
    assert("gemini"@[0] == 'g' && "openai"@[0] == 'o');
    assert("gemini_model"@[0] == 'g' && "openai_model"@[0] == 'o' && "ollama_model"@[0] == 'o');
    assert("openai_model"@[1] == 'p' && "ollama_model"@[1] == 'l');
}

/// The configuration document: section/key/value triples, first match
/// authoritative.
pub struct Config {
    pub entries: Vec<(String, String, String)>,
}

impl Config {
    /// The value this document binds to `(section, key)`.
    pub open spec fn value_of(self, section: Seq<char>, key: Seq<char>) -> Option<Seq<char>> {
        cfg_lookup(self.entries@, section, key)
    }

    /// An empty document: every lookup misses.
    pub fn new() -> (r: Config)
        ensures
            forall|s: Seq<char>, k: Seq<char>| r.value_of(s, k) is None,
    {
        Config { entries: Vec::new() }
    }

    /// The index of the first triple naming `(section, key)`, if any.
    fn find(&self, section: &str, key: &str) -> (r: Option<usize>)
        ensures
            r matches Some(i) ==> {
                &&& i < self.entries@.len()
                &&& self.entries@[i as int].0@ == section@
                &&& self.entries@[i as int].1@ == key@
                &&& forall|j: int|
                    0 <= j < i ==> !(self.entries@[j].0@ == section@ && self.entries@[j].1@
                        == key@)
            },
            r is None ==> forall|j: int|
                0 <= j < self.entries@.len() ==> !(self.entries@[j].0@ == section@
                    && self.entries@[j].1@ == key@),
    {
        let n = self.entries.len();
        let mut i: usize = 0;
        while i < n
            invariant
                n == self.entries@.len(),
                i <= n,
                forall|j: int|
                    0 <= j < i ==> !(self.entries@[j].0@ == section@ && self.entries@[j].1@
                        == key@),
            decreases n - i,
        {
            if crate::text::str_eq(self.entries[i].0.as_str(), section) && crate::text::str_eq(
                self.entries[i].1.as_str(),
                key,
            ) {
                return Some(i);
            }
            i = i + 1;
        }
        None
    }

    /// Read one value.
    pub fn get(&self, section: &str, key: &str) -> (r: Option<String>)
        ensures
            r matches Some(v) ==> self.value_of(section@, key@) == Some(v@),
            r is None ==> self.value_of(section@, key@) is None,
    {
        match self.find(section, key) {
            Some(i) => {
                proof {
                    lemma_lookup_first_match(self.entries@, i as int, section@, key@);
                }
                Some(self.entries[i].2.clone())
            },
            None => {
                proof {
                    lemma_lookup_no_match(self.entries@, section@, key@);
                }
                None
            },
        }
    }

    /// Bind `(section, key)` to `value`, leaving every other pair as it was.
    pub fn set(&mut self, section: &str, key: &str, value: &str)
        ensures
            final(self).value_of(section@, key@) == Some(value@),
            forall|s2: Seq<char>, k2: Seq<char>|
                !(s2 == section@ && k2 == key@) ==> #[trigger] final(self).value_of(s2, k2) == old(
                    self,
                ).value_of(s2, k2),
    {
        let t = (String::from_str(section), String::from_str(key), String::from_str(value));
        match self.find(section, key) {
            Some(i) => {
                let ghost before = self.entries@;
                self.entries[i] = t;
                proof {
                    assert(self.entries@ =~= before.update(i as int, t));
                    lemma_lookup_first_match(self.entries@, i as int, section@, key@);
                    assert forall|s2: Seq<char>, k2: Seq<char>|
                        !(s2 == section@ && k2 == key@) implies cfg_lookup(self.entries@, s2, k2)
                        == cfg_lookup(before, s2, k2) by {
                        lemma_lookup_update_other(before, i as int, t, s2, k2);
                    }
                }
            },
            None => {
                let ghost before = self.entries@;
                self.entries.push(t);
                proof {
                    lemma_lookup_no_match(before, section@, key@);
                    lemma_lookup_push(before, t, section@, key@);
                    assert forall|s2: Seq<char>, k2: Seq<char>|
                        !(s2 == section@ && k2 == key@) implies cfg_lookup(self.entries@, s2, k2)
                        == cfg_lookup(before, s2, k2) by {
                        lemma_lookup_push(before, t, s2, k2);
                    }
                }
            },
        }
    }

    /// Read one value, falling back to the empty string.
    fn get_or_empty(&self, section: &str, key: &str) -> (r: String)
        ensures
            r@ == or_empty(self.value_of(section@, key@)),
    {
        match self.get(section, key) {
            Some(v) => v,
            None => String::new(),
        }
    }

    /// The snapshot the gateway consumes: each field is the stored value,
    /// or empty where none is stored — except the transparency, whose
    /// stored text falls back to `0.3`.
    pub fn get_data(&self) -> (r: ConfigData)
        ensures
            r.llm_provider@ == or_empty(self.value_of("llm"@, "provider"@)),
            r.gemini_api_key@ == or_empty(self.value_of("api_keys"@, "gemini"@)),
            r.gemini_model@ == or_empty(self.value_of("llm"@, "gemini_model"@)),
            r.openai_api_key@ == or_empty(self.value_of("api_keys"@, "openai"@)),
            r.openai_model@ == or_empty(self.value_of("llm"@, "openai_model"@)),
            r.ollama_url@ == or_empty(self.value_of("llm"@, "ollama_url"@)),
            r.ollama_model@ == or_empty(self.value_of("llm"@, "ollama_model"@)),
            r.target_language@ == or_empty(self.value_of("translation"@, "target_language"@)),
            r.overlay_transparency@ == (match self.value_of("ui"@, "overlay_transparency"@) {
                Some(v) => v,
                None => "0.3"@,
            }),
    {
        ConfigData {
            llm_provider: self.get_or_empty("llm", "provider"),
            gemini_api_key: self.get_or_empty("api_keys", "gemini"),
            gemini_model: self.get_or_empty("llm", "gemini_model"),
            openai_api_key: self.get_or_empty("api_keys", "openai"),
            openai_model: self.get_or_empty("llm", "openai_model"),
            ollama_url: self.get_or_empty("llm", "ollama_url"),
            ollama_model: self.get_or_empty("llm", "ollama_model"),
            target_language: self.get_or_empty("translation", "target_language"),
            overlay_transparency: match self.get("ui", "overlay_transparency") {
                Some(v) => v,
                None => String::from_str("0.3"),
            },
        }
    }

    /// Write a whole snapshot back: afterwards each of the nine stored
    /// pairs holds the snapshot's field, and no other pair has moved.
    #[verifier::rlimit(60)]
    pub fn update(&mut self, config_data: ConfigData)
        ensures
            final(self).value_of("llm"@, "provider"@) == Some(config_data.llm_provider@),
            final(self).value_of("api_keys"@, "gemini"@) == Some(config_data.gemini_api_key@),
            final(self).value_of("llm"@, "gemini_model"@) == Some(config_data.gemini_model@),
            final(self).value_of("api_keys"@, "openai"@) == Some(config_data.openai_api_key@),
            final(self).value_of("llm"@, "openai_model"@) == Some(config_data.openai_model@),
            final(self).value_of("llm"@, "ollama_url"@) == Some(config_data.ollama_url@),
            final(self).value_of("llm"@, "ollama_model"@) == Some(config_data.ollama_model@),
            final(self).value_of("translation"@, "target_language"@) == Some(
                config_data.target_language@,
            ),
            final(self).value_of("ui"@, "overlay_transparency"@) == Some(
                config_data.overlay_transparency@,
            ),
            forall|s2: Seq<char>, k2: Seq<char>|
                !((s2 == "llm"@ && (k2 == "provider"@ || k2 == "gemini_model"@ || k2
                    == "openai_model"@ || k2 == "ollama_url"@ || k2 == "ollama_model"@)) || (s2
                    == "api_keys"@ && (k2 == "gemini"@ || k2 == "openai"@)) || (s2
                    == "translation"@ && k2 == "target_language"@) || (s2 == "ui"@ && k2
                    == "overlay_transparency"@)) ==> final(self).value_of(s2, k2) == old(
                    self,
                ).value_of(s2, k2),
    {
        self.set("llm", "provider", config_data.llm_provider.as_str());
        self.set("api_keys", "gemini", config_data.gemini_api_key.as_str());
        self.set("llm", "gemini_model", config_data.gemini_model.as_str());
        self.set("api_keys", "openai", config_data.openai_api_key.as_str());
        self.set("llm", "openai_model", config_data.openai_model.as_str());
        proof {
            lemma_distinct_config_literals();
            assert(self.value_of("api_keys"@, "openai"@) == Some(config_data.openai_api_key@));
            assert(self.value_of("llm"@, "gemini_model"@) == Some(config_data.gemini_model@));
            assert(self.value_of("api_keys"@, "gemini"@) == Some(config_data.gemini_api_key@));
            assert(self.value_of("llm"@, "provider"@) == Some(config_data.llm_provider@));
        }
        self.set("llm", "ollama_url", config_data.ollama_url.as_str());
        self.set("llm", "ollama_model", config_data.ollama_model.as_str());
        self.set("translation", "target_language", config_data.target_language.as_str());
        self.set("ui", "overlay_transparency", config_data.overlay_transparency.as_str());
        proof {
            lemma_distinct_config_literals();
            assert(self.value_of("ui"@, "overlay_transparency"@) == Some(
                config_data.overlay_transparency@,
            ));
            assert(self.value_of("translation"@, "target_language"@) == Some(
                config_data.target_language@,
            ));
            assert(self.value_of("llm"@, "ollama_model"@) == Some(config_data.ollama_model@));
            assert(self.value_of("llm"@, "ollama_url"@) == Some(config_data.ollama_url@));
            assert(self.value_of("llm"@, "openai_model"@) == Some(config_data.openai_model@));
            assert(self.value_of("api_keys"@, "openai"@) == Some(config_data.openai_api_key@));
            assert(self.value_of("llm"@, "gemini_model"@) == Some(config_data.gemini_model@));
            assert(self.value_of("api_keys"@, "gemini"@) == Some(config_data.gemini_api_key@));
            assert(self.value_of("llm"@, "provider"@) == Some(config_data.llm_provider@));
        }
    }

    /// The document a fresh installation starts from.
    #[verifier::rlimit(60)]
    pub fn default_config() -> (r: Config)
        ensures
            r.value_of("llm"@, "provider"@) == Some("gemini"@),
            r.value_of("llm"@, "gemini_model"@) == Some("gemini-2.0-flash-exp"@),
            r.value_of("llm"@, "openai_model"@) == Some("gpt-4o-mini"@),
            r.value_of("llm"@, "ollama_url"@) == Some("http://localhost:11434"@),
            r.value_of("llm"@, "ollama_model"@) == Some("llava"@),
            r.value_of("api_keys"@, "gemini"@) == Some(Seq::<char>::empty()),
            r.value_of("api_keys"@, "openai"@) == Some(Seq::<char>::empty()),
            r.value_of("translation"@, "target_language"@) == Some("German"@),
            r.value_of("ui"@, "overlay_transparency"@) == Some("0.3"@),
            forall|s2: Seq<char>, k2: Seq<char>|
                !((s2 == "llm"@ && (k2 == "provider"@ || k2 == "gemini_model"@ || k2
                    == "openai_model"@ || k2 == "ollama_url"@ || k2 == "ollama_model"@)) || (s2
                    == "api_keys"@ && (k2 == "gemini"@ || k2 == "openai"@)) || (s2
                    == "translation"@ && k2 == "target_language"@) || (s2 == "ui"@ && k2
                    == "overlay_transparency"@)) ==> r.value_of(s2, k2) is None,
    {
        let mut c = Config::new();
        c.set("llm", "provider", "gemini");
        c.set("llm", "gemini_model", "gemini-2.0-flash-exp");
        c.set("llm", "openai_model", "gpt-4o-mini");
        c.set("llm", "ollama_url", "http://localhost:11434");
        c.set("llm", "ollama_model", "llava");
        proof {
            lemma_distinct_config_literals();
            assert(c.value_of("llm"@, "ollama_url"@) == Some("http://localhost:11434"@));
            assert(c.value_of("llm"@, "openai_model"@) == Some("gpt-4o-mini"@));
            assert(c.value_of("llm"@, "gemini_model"@) == Some("gemini-2.0-flash-exp"@));
            assert(c.value_of("llm"@, "provider"@) == Some("gemini"@));
        }
        c.set("api_keys", "gemini", "");
        c.set("api_keys", "openai", "");
        c.set("translation", "target_language", "German");
        c.set("ui", "overlay_transparency", "0.3");
        proof {
            lemma_distinct_config_literals();
            assert(c.value_of("ui"@, "overlay_transparency"@) == Some("0.3"@));
            assert(c.value_of("translation"@, "target_language"@) == Some("German"@));
            assert(c.value_of("api_keys"@, "openai"@) == Some(""@));
            assert(c.value_of("api_keys"@, "gemini"@) == Some(""@));
            assert(c.value_of("llm"@, "ollama_model"@) == Some("llava"@));
            assert(c.value_of("llm"@, "ollama_url"@) == Some("http://localhost:11434"@));
            assert(c.value_of("llm"@, "openai_model"@) == Some("gpt-4o-mini"@));
            assert(c.value_of("llm"@, "gemini_model"@) == Some("gemini-2.0-flash-exp"@));
            assert(c.value_of("llm"@, "provider"@) == Some("gemini"@));
        }
        c
    }
}

/// An option's characters, or none at all.
pub open spec fn or_empty(o: Option<Seq<char>>) -> Seq<char> {
    match o {
        Some(v) => v,
        None => Seq::empty(),
    }
}

} // verus!
