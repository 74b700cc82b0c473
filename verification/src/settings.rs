//! The user's settings: configured providers, saved places and sync choices.
use vstd::prelude::*;
use crate::provider::{ProviderKind, RateLimitConfig};
use crate::ticket::{TicketLocation, LocationV, opt_text, clone_opt_text};
use crate::text::str_eq;

verus! {

/// A language-model provider the user configured.
#[derive(Debug)]
pub struct SavedProvider {
    pub id: String,
    pub name: String,
    pub kind: ProviderKind,
    pub endpoint: String,
    pub model_name: String,
    pub rate_limit: Option<RateLimitConfig>,
}

/// Where the stack is synchronised.
#[derive(Clone, Copy, Debug, PartialEq, Eq, Structural)]
pub enum SyncMode {
    LocalOnly,
    CloudOfficial,
    CloudCustom,
}

/// A place the user named, such as "Home".
#[derive(Debug)]
pub struct SavedLocation {
    pub id: String,
    pub label: String,
    pub location: TicketLocation,
}

/// All of the user's settings.
#[derive(Debug)]
pub struct UserSettings {
    pub providers: Vec<SavedProvider>,
    pub default_provider_id: Option<String>,
    pub local_processing: bool,
    pub locale: Option<String>,
    pub hour12: Option<bool>,
    pub sync_mode: SyncMode,
    pub custom_server_url: Option<String>,
    pub onboarding_complete: bool,
    pub saved_locations: Vec<SavedLocation>,
    pub sync_user_id: Option<i64>,
    pub sync_user_name: Option<String>,
}

impl Default for SyncMode {
    fn default() -> (r: SyncMode)
        ensures
            r == SyncMode::LocalOnly,
    {
        SyncMode::LocalOnly
    }
}

impl Default for UserSettings {
    fn default() -> (r: UserSettings)
        ensures
            r.providers@.len() == 0,
            r.default_provider_id is None,
            !r.local_processing,
            r.locale is None,
            r.hour12 is None,
            r.sync_mode == SyncMode::LocalOnly,
            r.custom_server_url is None,
            !r.onboarding_complete,
            r.saved_locations@.len() == 0,
            r.sync_user_id is None,
            r.sync_user_name is None,
    {
        UserSettings {
            providers: Vec::new(),
            default_provider_id: None,
            local_processing: false,
            locale: None,
            hour12: None,
            sync_mode: SyncMode::LocalOnly,
            custom_server_url: None,
            onboarding_complete: false,
            saved_locations: Vec::new(),
            sync_user_id: None,
            sync_user_name: None,
        }
    }
}

/// `i` is the first provider carrying the id `id`.
pub open spec fn first_provider_with_id(ps: Seq<SavedProvider>, id: Seq<char>, i: int) -> bool {
    0 <= i < ps.len() && ps[i].id@ == id && forall|j: int| 0 <= j < i ==> #[trigger] ps[j].id@ != id
}

impl UserSettings {
    /// The provider chosen as default: the first one carrying the default id.
    pub fn active_provider(&self) -> (r: Option<&SavedProvider>)
        ensures
            match r {
                Some(p) => self.default_provider_id matches Some(id) && exists|i: int|
                    first_provider_with_id(self.providers@, id@, i) && self.providers@[i] == *p,
                None => match self.default_provider_id {
                    Some(id) => forall|i: int|
                        0 <= i < self.providers@.len() ==> #[trigger] self.providers@[i].id@ != id@,
                    None => true,
                },
            },
    {
        match &self.default_provider_id {
            Some(id) => {
                let mut i: usize = 0;
                while i < self.providers.len()
                    invariant
                        i <= self.providers.len(),
                        self.default_provider_id == Some(*id),
                        forall|j: int| 0 <= j < i ==> #[trigger] self.providers@[j].id@ != id@,
                    decreases self.providers.len() - i,
                {
                    if str_eq(self.providers[i].id.as_str(), id.as_str()) {
                        proof {
                            assert(first_provider_with_id(self.providers@, id@, i as int));
                        }
                        return Some(&self.providers[i]);
                    }
                    i = i + 1;
                }
                None
            },
            None => None,
        }
    }
}

impl SavedProvider {
    /// A copy with the same content.
    pub fn copy(&self) -> (r: SavedProvider)
        ensures
            r.id@ == self.id@,
            r.name@ == self.name@,
            r.kind == self.kind,
            r.endpoint@ == self.endpoint@,
            r.model_name@ == self.model_name@,
            r.rate_limit == self.rate_limit,
    {
        SavedProvider {
            id: self.id.clone(),
            name: self.name.clone(),
            kind: self.kind,
            endpoint: self.endpoint.clone(),
            model_name: self.model_name.clone(),
            rate_limit: self.rate_limit,
        }
    }
}

/// The providers' ids, in order.
pub open spec fn provider_ids(ps: Seq<SavedProvider>) -> Seq<Seq<char>> {
    ps.map_values(|p: SavedProvider| p.id@)
}

/// Adds a provider, or replaces the first one carrying its id; the first
/// provider configured becomes the default.
pub fn upsert_provider_into(settings: &mut UserSettings, provider: SavedProvider)
    ensures
        ({
            let old_ps = old(settings).providers@;
            let new_ps = final(settings).providers@;
            if exists|i: int| 0 <= i < old_ps.len() && #[trigger] old_ps[i].id@ == provider.id@ {
                exists|i: int|
                    first_provider_with_id(old_ps, provider.id@, i) && new_ps == old_ps.update(i, provider)
            } else {
                new_ps == old_ps.push(provider)
            }
        }),
        opt_text(final(settings).default_provider_id) == match old(settings).default_provider_id {
            Some(d) => Some(d@),
            None => Some(provider.id@),
        },
        final(settings).saved_locations == old(settings).saved_locations,
{
    let mut pos: Option<usize> = None;
    let mut i: usize = 0;
    while i < settings.providers.len()
        invariant
            i <= settings.providers.len(),
            settings.providers@ == old(settings).providers@,
            pos is None ==> forall|j: int| 0 <= j < i ==> #[trigger] settings.providers@[j].id@ != provider.id@,
            pos matches Some(p) ==> first_provider_with_id(settings.providers@, provider.id@, p as int),
        decreases settings.providers.len() - i,
    {
        if pos.is_none() && str_eq(settings.providers[i].id.as_str(), provider.id.as_str()) {
            pos = Some(i);
        }
        i = i + 1;
    }
    let pid = provider.id.clone();
    match pos {
        Some(p) => {
            settings.providers.set(p, provider);
        },
        None => {
            settings.providers.push(provider);
        },
    }
    if settings.default_provider_id.is_none() {
        settings.default_provider_id = Some(pid);
    }
}

/// Removes every provider carrying `id`; when the default was `id`, the first
/// remaining provider becomes the default (or none).
pub fn remove_provider(settings: &mut UserSettings, id: &str)
    ensures
        final(settings).providers@ == old(settings).providers@.filter(|p: SavedProvider| p.id@ != id@),
        opt_text(final(settings).default_provider_id) == (if opt_text(old(settings).default_provider_id) == Some(id@) {
            if final(settings).providers@.len() > 0 {
                Some(final(settings).providers@[0].id@)
            } else {
                None
            }
        } else {
            opt_text(old(settings).default_provider_id)
        }),
{
    let ghost pred = |p: SavedProvider| p.id@ != id@;
    let ghost orig = settings.providers@;
    let mut kept: Vec<SavedProvider> = Vec::new();
    let mut rest: Vec<SavedProvider> = Vec::new();
    std::mem::swap(&mut rest, &mut settings.providers);
    let n = rest.len();
    let mut i: usize = 0;
    proof {
        reveal(Seq::filter);
        assert(orig.take(0) =~= Seq::<SavedProvider>::empty());
        assert(orig.skip(0) =~= orig);
    }
    while rest.len() > 0
        invariant
            i + rest@.len() == orig.len(),
            orig.len() == n,
            rest@ == orig.skip(i as int),
            kept@ == orig.take(i as int).filter(pred),
            pred == (|p: SavedProvider| p.id@ != id@),
        decreases rest.len(),
    {
        let p = rest.remove(0);
        proof {
            reveal(Seq::filter);
            assert(orig.take(i + 1).drop_last() =~= orig.take(i as int));
            assert(orig.take(i + 1).last() == p);
            assert(rest@ =~= orig.skip(i + 1));
        }
        if !str_eq(p.id.as_str(), id) {
            kept.push(p);
        }
        i = i + 1;
    }
    proof {
        assert(orig.take(i as int) =~= orig);
    }
    settings.providers = kept;
    let was_default = match &settings.default_provider_id {
        Some(d) => str_eq(d.as_str(), id),
        None => false,
    };
    if was_default {
        settings.default_provider_id = if settings.providers.len() > 0 {
            Some(settings.providers[0].id.clone())
        } else {
            None
        };
    }
}

/// The sync mode chosen at onboarding: `"CloudOfficial"` and `"CloudCustom"`
/// name theirs, anything else is local only.
pub fn sync_mode_from_choice(mode: &str) -> (r: SyncMode)
    ensures
        r == (if mode@ == "CloudOfficial"@ {
            SyncMode::CloudOfficial
        } else if mode@ == "CloudCustom"@ {
            SyncMode::CloudCustom
        } else {
            SyncMode::LocalOnly
        }),
{
    if str_eq(mode, "CloudOfficial") {
        SyncMode::CloudOfficial
    } else if str_eq(mode, "CloudCustom") {
        SyncMode::CloudCustom
    } else {
        SyncMode::LocalOnly
    }
}

/// Marks onboarding done with the chosen sync mode.
pub fn complete_onboarding_in(settings: &mut UserSettings, mode: &str)
    ensures
        final(settings).onboarding_complete,
        final(settings).sync_mode == sync_mode_from_choice_spec(mode@),
        final(settings).providers == old(settings).providers,
        final(settings).saved_locations == old(settings).saved_locations,
{
    settings.onboarding_complete = true;
    settings.sync_mode = sync_mode_from_choice(mode);
}

/// The sync mode a choice names.
pub open spec fn sync_mode_from_choice_spec(mode: Seq<char>) -> SyncMode {
    if mode == "CloudOfficial"@ {
        SyncMode::CloudOfficial
    } else if mode == "CloudCustom"@ {
        SyncMode::CloudCustom
    } else {
        SyncMode::LocalOnly
    }
}

/// The user's locale and clock format, defaulting to `"en-US"` and a 12-hour clock.
pub fn user_locale(settings: &UserSettings) -> (r: (String, bool))
    ensures
        r.0@ == match opt_text(settings.locale) {
            Some(l) => l,
            None => "en-US"@,
        },
        r.1 == match settings.hour12 {
            Some(h) => h,
            None => true,
        },
{
    let locale = match &settings.locale {
        Some(l) => l.clone(),
        None => "en-US".to_owned(),
    };
    let hour12 = match settings.hour12 {
        Some(h) => h,
        None => true,
    };
    (locale, hour12)
}

} // verus!
