//! Application settings: appearance, window geometry, and the per-service
//! configurations, keyed by service name.
//!
//! The service configurations form a small map with unique keys, held as an
//! association list. Loading and saving the settings file is the
//! surrounding process's part; the methods here only change the value.

use vstd::prelude::*;

use crate::ascii::str_eq;
use crate::services::ServiceConfig;
use crate::services::TranslationService;
use crate::services::spec_config_name;

verus! {

/// The configuration stored under `name`, searching front to back.
pub open spec fn spec_find(entries: Seq<(String, ServiceConfig)>, name: Seq<char>) -> Option<
    ServiceConfig,
>
    decreases entries.len(),
{
    if entries.len() == 0 {
        None
    } else if entries[0].0@ == name {
        Some(entries[0].1)
    } else {
        spec_find(entries.skip(1), name)
    }
}

/// A lookup that misses every entry before `i` and hits at `i` yields the
/// entry at `i`.
proof fn lemma_find_at(entries: Seq<(String, ServiceConfig)>, i: int, n: Seq<char>)
    requires
        0 <= i < entries.len(),
        forall|j: int| 0 <= j < i ==> #[trigger] entries[j].0@ != n,
        entries[i].0@ == n,
    ensures
        spec_find(entries, n) == Some(entries[i].1),
    decreases i,
{
    if i > 0 {
        assert(forall|j: int| 0 <= j < i - 1 ==> #[trigger] entries.skip(1)[j].0@ != n) by {
            assert(forall|j: int| 0 <= j < i - 1 ==> entries.skip(1)[j] == entries[j + 1]);
        }
        lemma_find_at(entries.skip(1), i - 1, n);
    }
}

/// A lookup that misses every entry yields nothing.
proof fn lemma_find_none(entries: Seq<(String, ServiceConfig)>, n: Seq<char>)
    requires
        forall|j: int| 0 <= j < entries.len() ==> #[trigger] entries[j].0@ != n,
    ensures
        spec_find(entries, n) is None,
    decreases entries.len(),
{
    if entries.len() > 0 {
        assert(forall|j: int|
            0 <= j < entries.skip(1).len() ==> #[trigger] entries.skip(1)[j].0@ != n) by {
            assert(forall|j: int|
                0 <= j < entries.skip(1).len() ==> entries.skip(1)[j] == entries[j + 1]);
        }
        lemma_find_none(entries.skip(1), n);
    }
}

/// Replacing the first entry of a key changes the lookup of that key to the
/// new configuration and no other lookup.
proof fn lemma_find_update(
    entries: Seq<(String, ServiceConfig)>,
    i: int,
    pair: (String, ServiceConfig),
    n: Seq<char>,
)
    requires
        0 <= i < entries.len(),
        forall|j: int| 0 <= j < i ==> #[trigger] entries[j].0@ != pair.0@,
        entries[i].0@ == pair.0@,
    ensures
        pair.0@ == n ==> spec_find(entries.update(i, pair), n) == Some(pair.1),
        pair.0@ != n ==> spec_find(entries.update(i, pair), n) == spec_find(entries, n),
    decreases i,
{
    let up = entries.update(i, pair);
    if i == 0 {
        if pair.0@ != n {
            assert(up.skip(1) =~= entries.skip(1));
        }
    } else {
        assert(up[0] == entries[0]);
        assert(up.skip(1) =~= entries.skip(1).update(i - 1, pair));
        assert(forall|j: int| 0 <= j < i - 1 ==> #[trigger] entries.skip(1)[j].0@ != pair.0@) by {
            assert(forall|j: int| 0 <= j < i - 1 ==> entries.skip(1)[j] == entries[j + 1]);
        }
        lemma_find_update(entries.skip(1), i - 1, pair, n);
    }
}

/// Appending an entry under a fresh key adds that one lookup and changes no
/// other.
proof fn lemma_find_push(
    entries: Seq<(String, ServiceConfig)>,
    pair: (String, ServiceConfig),
    n: Seq<char>,
)
    ensures
        pair.0@ == n && spec_find(entries, n) is None ==> spec_find(entries.push(pair), n)
            == Some(pair.1),
        pair.0@ != n ==> spec_find(entries.push(pair), n) == spec_find(entries, n),
    decreases entries.len(),
{
    let p = entries.push(pair);
    if entries.len() == 0 {
        if pair.0@ != n {
            assert(p.skip(1) =~= Seq::<(String, ServiceConfig)>::empty());
            assert(spec_find(Seq::<(String, ServiceConfig)>::empty(), n) is None);
        }
    } else {
        assert(p[0] == entries[0]);
        assert(p.skip(1) =~= entries.skip(1).push(pair));
        lemma_find_push(entries.skip(1), pair, n);
    }
}

/// Application settings.
#[derive(Clone, Debug)]
pub struct Settings {
    /// Prefer the dark theme.
    pub dark_mode: bool,
    /// Source language preselected at startup.
    pub default_source_lang: String,
    /// Target language preselected at startup.
    pub default_target_lang: String,
    /// Window width, in pixels.
    pub window_width: i32,
    /// Window height, in pixels.
    pub window_height: i32,
    /// Saved horizontal window position, if any.
    pub window_x: Option<i32>,
    /// Saved vertical window position, if any.
    pub window_y: Option<i32>,
    /// Start with the window minimized.
    pub startup_minimized: bool,
    /// The translation service the consumer uses.
    pub active_service: TranslationService,
    /// Per-service configurations, keyed by service name; keys are unique.
    pub service_configs: Vec<(String, ServiceConfig)>,
    /// Bound on the number of history entries kept.
    pub max_history_entries: i32,
    /// Save translations to the history automatically.
    pub auto_save_history: bool,
}

impl Settings {
    /// The service-configuration keys are unique, so a lookup has one
    /// answer.
    pub open spec fn valid(self) -> bool {
        forall|i: int, j: int|
            0 <= i < j < self.service_configs@.len() ==> (#[trigger] self.service_configs@[i]).0@
                != (#[trigger] self.service_configs@[j]).0@
    }

    /// Store `config` under `service_name`, replacing any configuration
    /// stored there; every other service's configuration is untouched, and
    /// so is every other field.
    pub fn update_service_config(&mut self, service_name: &str, config: ServiceConfig)
        requires
            old(self).valid(),
        ensures
            final(self).valid(),
            spec_find(final(self).service_configs@, service_name@) == Some(config),
            forall|n: Seq<char>|
                n != service_name@ ==> spec_find(final(self).service_configs@, n) == spec_find(
                    old(self).service_configs@,
                    n,
                ),
            final(self).dark_mode == old(self).dark_mode,
            final(self).default_source_lang == old(self).default_source_lang,
            final(self).default_target_lang == old(self).default_target_lang,
            final(self).window_width == old(self).window_width,
            final(self).window_height == old(self).window_height,
            final(self).window_x == old(self).window_x,
            final(self).window_y == old(self).window_y,
            final(self).startup_minimized == old(self).startup_minimized,
            final(self).active_service == old(self).active_service,
            final(self).max_history_entries == old(self).max_history_entries,
            final(self).auto_save_history == old(self).auto_save_history,
    {
        let ghost entries0 = self.service_configs@;
        let n = self.service_configs.len();
        let mut i: usize = 0;
        while i < n
            invariant
                n == self.service_configs@.len(),
                i <= n,
                old(self).valid(),
                *self == *old(self),
                entries0 == self.service_configs@,
                forall|j: int| 0 <= j < i ==> #[trigger] self.service_configs@[j].0@ != service_name@,
            decreases n - i,
        {
            if str_eq(self.service_configs[i].0.as_str(), service_name) {
                let pair = (String::from_str(service_name), config);
                proof {
                    lemma_find_update(entries0, i as int, pair, service_name@);
                }
                assert forall|m: Seq<char>| m != service_name@ implies spec_find(
                    entries0.update(i as int, pair),
                    m,
                ) == spec_find(entries0, m) by {
                    lemma_find_update(entries0, i as int, pair, m);
                }
                self.service_configs.set(i, pair);
                proof {
                    let updated = self.service_configs@;
                    assert(forall|k: int|
                        0 <= k < updated.len() ==> (#[trigger] updated[k]).0@ == entries0[k].0@);
                    assert forall|a: int, b: int| 0 <= a < b < updated.len() implies (
                    #[trigger] updated[a]).0@ != (#[trigger] updated[b]).0@ by {
                        assert(updated[a].0@ == entries0[a].0@);
                        assert(updated[b].0@ == entries0[b].0@);
                        assert(entries0[a].0@ != entries0[b].0@);
                    }
                }
                return;
            }
            i = i + 1;
        }
        let pair = (String::from_str(service_name), config);
        proof {
            lemma_find_none(entries0, service_name@);
            lemma_find_push(entries0, pair, service_name@);
        }
        assert forall|m: Seq<char>| m != service_name@ implies spec_find(entries0.push(pair), m)
            == spec_find(entries0, m) by {
            lemma_find_push(entries0, pair, m);
        }
        self.service_configs.push(pair);
        proof {
            let pushed = self.service_configs@;
            assert(forall|k: int| 0 <= k < entries0.len() ==> pushed[k] == entries0[k]);
            assert(pushed[entries0.len() as int].0@ == service_name@);
            assert forall|a: int, b: int| 0 <= a < b < pushed.len() implies (
            #[trigger] pushed[a]).0@ != (#[trigger] pushed[b]).0@ by {
                assert(pushed[a] == entries0[a]);
                if b < entries0.len() {
                    assert(pushed[b] == entries0[b]);
                    assert(entries0[a].0@ != entries0[b].0@);
                } else {
                    assert(entries0[a].0@ != service_name@);
                }
            }
        }
    }

    /// The configuration stored for `service`, or nothing where none is.
    pub fn get_service_config(&self, service: &TranslationService) -> (r: Option<ServiceConfig>)
        ensures
            r == spec_find(self.service_configs@, spec_config_name(*service)),
    {
        let name = service.config_name();
        let n = self.service_configs.len();
        let mut i: usize = 0;
        while i < n
            invariant
                n == self.service_configs@.len(),
                i <= n,
                name@ == spec_config_name(*service),
                forall|j: int| 0 <= j < i ==> #[trigger] self.service_configs@[j].0@ != name@,
            decreases n - i,
        {
            if str_eq(self.service_configs[i].0.as_str(), name) {
                proof {
                    lemma_find_at(self.service_configs@, i as int, name@);
                }
                return Some(self.service_configs[i].1.clone());
            }
            i = i + 1;
        }
        proof {
            lemma_find_none(self.service_configs@, name@);
        }
        None
    }

    /// Remember the window's position and size; every other field is
    /// untouched. Persisting the new value is the caller's step.
    pub fn update_window_geometry(&mut self, x: i32, y: i32, width: i32, height: i32)
        ensures
            final(self).window_x == Some(x),
            final(self).window_y == Some(y),
            final(self).window_width == width,
            final(self).window_height == height,
            final(self).dark_mode == old(self).dark_mode,
            final(self).default_source_lang == old(self).default_source_lang,
            final(self).default_target_lang == old(self).default_target_lang,
            final(self).startup_minimized == old(self).startup_minimized,
            final(self).active_service == old(self).active_service,
            final(self).service_configs == old(self).service_configs,
            final(self).max_history_entries == old(self).max_history_entries,
            final(self).auto_save_history == old(self).auto_save_history,
    {
        self.window_x = Some(x);
        self.window_y = Some(y);
        self.window_width = width;
        self.window_height = height;
    }
}

impl Default for Settings {
    /// The settings a fresh installation starts from: automatic source
    /// language, English target, an 800 by 500 window, the free service
    /// active, and one default configuration per service, with the
    /// self-hosted service pointed at its public endpoint.
    fn default() -> (r: Self)
        ensures
            r.valid(),
            !r.dark_mode,
            r.default_source_lang@ == "auto"@,
            r.default_target_lang@ == "en"@,
            r.window_width == 800,
            r.window_height == 500,
            r.window_x is None,
            r.window_y is None,
            !r.startup_minimized,
            r.active_service == TranslationService::GoogleBeta,
            r.max_history_entries == 100,
            r.auto_save_history,
            r.service_configs@.len() == 5,
            r.service_configs@[0].0@ == "GoogleBeta"@,
            r.service_configs@[1].0@ == "GoogleOfficial"@,
            r.service_configs@[2].0@ == "LibreTranslate"@,
            r.service_configs@[3].0@ == "Bing"@,
            r.service_configs@[4].0@ == "DeepL"@,
            forall|i: int|
                0 <= i < 5 ==> (#[trigger] r.service_configs@[i]).1.api_key is None
                    && r.service_configs@[i].1.timeout_seconds == Some(5u64),
            forall|i: int|
                0 <= i < 5 && i != 2 ==> (#[trigger] r.service_configs@[i]).1.endpoint is None,
            r.service_configs@[2].1.endpoint matches Some(e) && e@
                == "https://libretranslate.com/translate"@,
    {
        let mut configs: Vec<(String, ServiceConfig)> = Vec::new();
        configs.push((String::from_str("GoogleBeta"), ServiceConfig::default()));
        configs.push((String::from_str("GoogleOfficial"), ServiceConfig::default()));
        configs.push(
            (
                String::from_str("LibreTranslate"),
                ServiceConfig {
                    api_key: None,
                    endpoint: Some(String::from_str("https://libretranslate.com/translate")),
                    timeout_seconds: Some(5),
                },
            ),
        );
        configs.push((String::from_str("Bing"), ServiceConfig::default()));
        configs.push((String::from_str("DeepL"), ServiceConfig::default()));
        proof {
            reveal_strlit("GoogleBeta");
            reveal_strlit("GoogleOfficial");
            reveal_strlit("LibreTranslate");
            reveal_strlit("Bing");
            reveal_strlit("DeepL");
        }
        assert(configs@.len() == 5);
        assert(configs@[0].0@ == "GoogleBeta"@);
        assert(configs@[1].0@ == "GoogleOfficial"@);
        assert(configs@[2].0@ == "LibreTranslate"@);
        assert(configs@[3].0@ == "Bing"@);
        assert(configs@[4].0@ == "DeepL"@);
        proof {
            let e = configs@;
            assert(e[1].0@ != e[2].0@) by {
                assert(e[1].0@[0] == 'G');
                assert(e[2].0@[0] == 'L');
            }
            assert forall|i: int, j: int| 0 <= i < j < e.len() implies (#[trigger] e[i]).0@ != (
            #[trigger] e[j]).0@ by {
                assert(e[0].0@.len() == 10);
                assert(e[1].0@.len() == 14);
                assert(e[2].0@.len() == 14);
                assert(e[3].0@.len() == 4);
                assert(e[4].0@.len() == 5);
            }
        }
        let r = Settings {
            dark_mode: false,
            default_source_lang: String::from_str("auto"),
            default_target_lang: String::from_str("en"),
            window_width: 800,
            window_height: 500,
            window_x: None,
            window_y: None,
            startup_minimized: false,
            active_service: TranslationService::GoogleBeta,
            service_configs: configs,
            max_history_entries: 100,
            auto_save_history: true,
        };
        assert(r.valid());
        r
    }
}

} // verus!
