//! The hook registry and its interception decision.
//!
//! A hook binds a combination pattern to an action. Hooks are kept in
//! registration order under unique names; a key event is scanned against the
//! enabled hooks in that order, and the first hook whose action reports that
//! it consumed the key stops the scan. A failing or non-consuming action
//! never stops it. Actions themselves are opaque, side-effecting
//! capabilities run by the caller; the decision which hook to ask next, and
//! what the scan concludes, is decided here.

use vstd::prelude::*;
use vstd::string::StringSliceAdditionalSpecFns;
use vstd::utf8::encode_utf8;
use crate::keys::{KeyCode, KeyInput, KeyModifiers, spec_matches_pattern};

verus! {

/// Configuration of one hook, as read from the configuration surface.
#[derive(Clone, Debug)]
pub struct HookConfig {
    pub name: String,
    pub key_combination: String,
    pub action: String,
    pub description: Option<String>,
    pub enabled: bool,
}

/// The parsed action of a hook: a shell command, a named function, a named
/// built-in, or one of the two delegated assistant actions.
#[derive(Clone, Debug)]
pub enum ActionType {
    Command(String),
    Function(String),
    Builtin(String),
    LlmPrompt,
    LlmReset,
}

/// Whether `s` starts with `p`.
pub open spec fn starts_with(s: Seq<char>, p: Seq<char>) -> bool {
    s.len() >= p.len() && s.take(p.len() as int) == p
}

/// The `cmd:`, `fn:` and `builtin:` action prefixes, and the two assistant
/// action names `llm:prompt` and `llm:reset`.
pub open spec fn cmd_prefix() -> Seq<char> {
    seq!['c', 'm', 'd', ':']
}

pub open spec fn fn_prefix() -> Seq<char> {
    seq!['f', 'n', ':']
}

pub open spec fn builtin_prefix() -> Seq<char> {
    seq!['b', 'u', 'i', 'l', 't', 'i', 'n', ':']
}

pub open spec fn llm_prompt_name() -> Seq<char> {
    seq!['l', 'l', 'm', ':', 'p', 'r', 'o', 'm', 'p', 't']
}

pub open spec fn llm_reset_name() -> Seq<char> {
    seq!['l', 'l', 'm', ':', 'r', 'e', 's', 'e', 't']
}

/// What parsing an action string must yield: a recognized prefix selects the
/// action kind and strips the prefix; the two assistant names select their
/// actions; anything else is taken whole as a shell command.
pub open spec fn spec_parse_action_ok(s: Seq<char>, r: ActionType) -> bool {
    if starts_with(s, cmd_prefix()) {
        r matches ActionType::Command(c) && c@ == s.skip(4)
    } else if starts_with(s, fn_prefix()) {
        r matches ActionType::Function(f) && f@ == s.skip(3)
    } else if starts_with(s, builtin_prefix()) {
        r matches ActionType::Builtin(b) && b@ == s.skip(8)
    } else if s == llm_prompt_name() {
        r is LlmPrompt
    } else if s == llm_reset_name() {
        r is LlmReset
    } else {
        r matches ActionType::Command(c) && c@ == s
    }
}

/// Whether the first characters of `s` are exactly `p`.
fn str_starts_with(s: &str, p: &Vec<char>) -> (r: bool)
    ensures
        r == starts_with(s@, p@),
{
    let n = s.unicode_len();
    if n < p.len() {
        proof {
            assert(!starts_with(s@, p@));
        }
        return false;
    }
    let mut i: usize = 0;
    while i < p.len()
        invariant
            i <= p@.len(),
            p@.len() <= s@.len(),
            forall|j: int| 0 <= j < i ==> s@[j] == p@[j],
        decreases p@.len() - i,
    {
        if s.get_char(i) != p[i] {
            proof {
                assert(s@.take(p@.len() as int)[i as int] == s@[i as int]);
                assert(s@.take(p@.len() as int) != p@);
            }
            return false;
        }
        i += 1;
    }
    proof {
        assert(s@.take(p@.len() as int) =~= p@);
    }
    true
}

/// Whether `s` is exactly the characters `p`.
fn str_is(s: &str, p: &Vec<char>) -> (r: bool)
    ensures
        r == (s@ == p@),
{
    if s.unicode_len() != p.len() {
        proof {
            assert(s@ != p@);
        }
        return false;
    }
    let r = str_starts_with(s, p);
    proof {
        assert(s@.take(p@.len() as int) =~= s@);
    }
    r
}

/// Parse an action string. Unrecognized strings fall back to a shell
/// command, never to an error.
pub fn parse_action(s: &str) -> (r: ActionType)
    ensures
        spec_parse_action_ok(s@, r),
{
    let n = s.unicode_len();
    if str_starts_with(s, &vec!['c', 'm', 'd', ':']) {
        ActionType::Command(s.substring_char(4, n).to_owned())
    } else if str_starts_with(s, &vec!['f', 'n', ':']) {
        ActionType::Function(s.substring_char(3, n).to_owned())
    } else if str_starts_with(s, &vec!['b', 'u', 'i', 'l', 't', 'i', 'n', ':']) {
        ActionType::Builtin(s.substring_char(8, n).to_owned())
    } else if str_is(s, &vec!['l', 'l', 'm', ':', 'p', 'r', 'o', 'm', 'p', 't']) {
        ActionType::LlmPrompt
    } else if str_is(s, &vec!['l', 'l', 'm', ':', 'r', 'e', 's', 'e', 't']) {
        ActionType::LlmReset
    } else {
        ActionType::Command(s.to_owned())
    }
}

/// A registered hook: its configuration and its parsed action.
#[derive(Clone, Debug)]
pub struct Hook {
    pub config: HookConfig,
    pub action: ActionType,
}

/// Whether an enabled hook's pattern matches the key event. Disabled hooks
/// match nothing.
pub open spec fn spec_hook_matches(h: Hook, code: KeyCode, m: KeyModifiers) -> bool {
    h.config.enabled && spec_matches_pattern(code, m, encode_utf8(h.config.key_combination@))
}

impl Hook {
    /// Build a hook from its configuration, parsing the action string once.
    pub fn new(config: HookConfig) -> (h: Hook)
        ensures
            h.config == config,
            spec_parse_action_ok(config.action@, h.action),
    {
        let action = parse_action(config.action.as_str());
        Hook { config, action }
    }

    /// Whether this hook is enabled and its pattern matches the key event.
    pub fn matches(&self, key: &KeyInput) -> (r: bool)
        ensures
            r == spec_hook_matches(*self, key.code, key.modifiers),
    {
        if !self.config.enabled {
            return false;
        }
        key.matches_pattern(self.config.key_combination.as_str())
    }
}

/// What the interception point concludes for one key event: consume it, or
/// pass it through to the shell.
#[derive(Clone, Copy, Debug, PartialEq, Eq, Structural)]
pub enum InterceptionResult {
    Consumed,
    PassThrough,
}

/// Whether some hook in the sequence carries this name.
pub open spec fn spec_has_name(hooks: Seq<Hook>, name: Seq<char>) -> bool {
    exists|i: int| 0 <= i < hooks.len() && hooks[i].config.name@ == name
}

/// What registering one configuration does to a registry: a hook already
/// held under the same name is replaced in place, keeping its position and
/// everything else; a new name is appended.
pub open spec fn spec_add_config(before: Seq<Hook>, config: HookConfig, after: Seq<Hook>) -> bool {
    if spec_has_name(before, config.name@) {
        &&& after.len() == before.len()
        &&& forall|j: int|
            0 <= j < before.len() && before[j].config.name@ != config.name@ ==> after[j]
                == before[j]
        &&& forall|j: int|
            0 <= j < before.len() && before[j].config.name@ == config.name@ ==> (#[trigger] after[j]).config
                == config && spec_parse_action_ok(config.action@, after[j].action)
    } else {
        &&& after.len() == before.len() + 1
        &&& after.drop_last() == before
        &&& after.last().config == config
        &&& spec_parse_action_ok(config.action@, after.last().action)
    }
}

/// A registry built from a list of configurations: the configurations
/// folded in by registration, in list order, a later configuration under an
/// already registered name replacing the earlier one in place.
pub open spec fn spec_registry_of(configs: Seq<HookConfig>, hooks: Seq<Hook>) -> bool
    decreases configs.len(),
{
    if configs.len() == 0 {
        hooks == Seq::<Hook>::empty()
    } else {
        exists|mid: Seq<Hook>|
            spec_registry_of(configs.drop_last(), mid) && #[trigger] spec_add_config(
                mid,
                configs.last(),
                hooks,
            )
    }
}

/// Pairwise distinct hook names.
pub open spec fn distinct_names(configs: Seq<HookConfig>) -> bool {
    forall|i: int, j: int|
        0 <= i < j < configs.len() ==> (#[trigger] configs[i]).name@ != (#[trigger] configs[j]).name@
}

/// Under pairwise distinct names no registration replaces another: the
/// registry holds exactly one hook per configuration, in list order.
pub proof fn lemma_registry_of_distinct(configs: Seq<HookConfig>, hooks: Seq<Hook>)
    requires
        spec_registry_of(configs, hooks),
        distinct_names(configs),
    ensures
        hooks.len() == configs.len(),
        forall|i: int|
            0 <= i < configs.len() ==> (#[trigger] hooks[i]).config == configs[i]
                && spec_parse_action_ok(configs[i].action@, hooks[i].action),
    decreases configs.len(),
{
    if configs.len() > 0 {
        let mid = choose|mid: Seq<Hook>|
            spec_registry_of(configs.drop_last(), mid) && #[trigger] spec_add_config(
                mid,
                configs.last(),
                hooks,
            );
        assert(distinct_names(configs.drop_last()));
        lemma_registry_of_distinct(configs.drop_last(), mid);
        assert(!spec_has_name(mid, configs.last().name@)) by {
            if spec_has_name(mid, configs.last().name@) {
                let w = choose|w: int|
                    0 <= w < mid.len() && mid[w].config.name@ == configs.last().name@;
                assert(mid[w].config == configs.drop_last()[w]);
                assert(configs[w].name@ != configs[configs.len() - 1].name@);
            }
        }
        assert(hooks.drop_last() == mid);
        assert forall|i: int| 0 <= i < configs.len() implies (#[trigger] hooks[i]).config
            == configs[i] && spec_parse_action_ok(configs[i].action@, hooks[i].action) by {
            if i < configs.len() - 1 {
                assert(hooks[i] == mid[i]);
                assert(mid[i].config == configs.drop_last()[i]);
            } else {
                assert(hooks[i] == hooks.last());
            }
        }
    }
}

/// The scan decision from position `from` on: ask each enabled matching hook
/// in registration order, where `outcomes[i]` says whether hook `i`'s action
/// would report the key consumed; stop at the first consumption, else pass
/// the key through.
pub open spec fn spec_scan(
    hooks: Seq<Hook>,
    code: KeyCode,
    m: KeyModifiers,
    outcomes: Seq<bool>,
    from: int,
) -> InterceptionResult
    decreases hooks.len() - from,
{
    if from < 0 || from >= hooks.len() {
        InterceptionResult::PassThrough
    } else if spec_hook_matches(hooks[from], code, m) && outcomes[from] {
        InterceptionResult::Consumed
    } else {
        spec_scan(hooks, code, m, outcomes, from + 1)
    }
}

/// Whether hook `j`'s action is invoked at all when the scan runs: it must
/// be an enabled match, and every earlier enabled match must have reported
/// the key not consumed (or failed, which counts the same).
pub open spec fn spec_evaluated(
    hooks: Seq<Hook>,
    code: KeyCode,
    m: KeyModifiers,
    outcomes: Seq<bool>,
    j: int,
) -> bool {
    &&& 0 <= j < hooks.len()
    &&& spec_hook_matches(hooks[j], code, m)
    &&& forall|i: int|
        0 <= i < j && spec_hook_matches(hooks[i], code, m) ==> !outcomes[i]
}

/// When no enabled hook matches the key, the scan passes it through.
pub proof fn lemma_no_match_passthrough(
    hooks: Seq<Hook>,
    code: KeyCode,
    m: KeyModifiers,
    outcomes: Seq<bool>,
    from: int,
)
    requires
        forall|i: int| 0 <= i < hooks.len() ==> !spec_hook_matches(#[trigger] hooks[i], code, m),
    ensures
        spec_scan(hooks, code, m, outcomes, from) == InterceptionResult::PassThrough,
    decreases hooks.len() - from,
{
    if 0 <= from < hooks.len() {
        lemma_no_match_passthrough(hooks, code, m, outcomes, from + 1);
    }
}

/// Once an earlier hook consumes the key, a later hook is never evaluated
/// for that same key.
pub proof fn lemma_consumed_stops_scan(
    hooks: Seq<Hook>,
    code: KeyCode,
    m: KeyModifiers,
    outcomes: Seq<bool>,
    i: int,
    j: int,
)
    requires
        0 <= i < j < hooks.len(),
        spec_hook_matches(hooks[i], code, m),
        outcomes[i],
    ensures
        !spec_evaluated(hooks, code, m, outcomes, j),
{
}

/// The scan consumes the key exactly when some hook is evaluated and its
/// action reports the key consumed.
pub proof fn lemma_scan_consumes_iff_evaluated_consumer(
    hooks: Seq<Hook>,
    code: KeyCode,
    m: KeyModifiers,
    outcomes: Seq<bool>,
)
    ensures
        spec_scan(hooks, code, m, outcomes, 0) == InterceptionResult::Consumed <==> exists|j: int|
            spec_evaluated(hooks, code, m, outcomes, j) && outcomes[j],
{
    lemma_scan_consumes_from(hooks, code, m, outcomes, 0);
}

proof fn lemma_scan_consumes_from(
    hooks: Seq<Hook>,
    code: KeyCode,
    m: KeyModifiers,
    outcomes: Seq<bool>,
    from: int,
)
    requires
        0 <= from <= hooks.len(),
        forall|i: int| 0 <= i < from && spec_hook_matches(#[trigger] hooks[i], code, m)
            ==> !outcomes[i],
    ensures
        spec_scan(hooks, code, m, outcomes, from) == InterceptionResult::Consumed <==> exists|j: int|
            spec_evaluated(hooks, code, m, outcomes, j) && outcomes[j],
    decreases hooks.len() - from,
{
    if from < hooks.len() {
        if spec_hook_matches(hooks[from], code, m) && outcomes[from] {
            assert(spec_evaluated(hooks, code, m, outcomes, from));
        } else {
            lemma_scan_consumes_from(hooks, code, m, outcomes, from + 1);
        }
    } else {
        if exists|j: int| spec_evaluated(hooks, code, m, outcomes, j) && outcomes[j] {
            let j = choose|j: int| spec_evaluated(hooks, code, m, outcomes, j) && outcomes[j];
            assert(spec_hook_matches(hooks[j], code, m));
            assert(!outcomes[j]);
        }
    }
}

/// The configurations of the enabled hooks among `hooks`, in order.
pub open spec fn spec_enabled_configs(hooks: Seq<Hook>) -> Seq<HookConfig>
    decreases hooks.len(),
{
    if hooks.len() == 0 {
        Seq::empty()
    } else {
        let rest = spec_enabled_configs(hooks.drop_last());
        if hooks.last().config.enabled {
            rest.push(hooks.last().config)
        } else {
            rest
        }
    }
}

/// The hook registry: hooks in registration order, names unique.
#[derive(Debug)]
pub struct HookManager {
    hooks: Vec<Hook>,
}

impl HookManager {
    /// The registered hooks, in registration order.
    pub closed spec fn spec_hooks(&self) -> Seq<Hook> {
        self.hooks@
    }

    /// Names are unique across the registry.
    pub closed spec fn wf(&self) -> bool {
        forall|i: int, j: int|
            0 <= i < j < self.hooks@.len() ==> self.hooks@[i].config.name@
                != self.hooks@[j].config.name@
    }

    /// An empty registry.
    pub fn new() -> (r: HookManager)
        ensures
            r.spec_hooks() == Seq::<Hook>::empty(),
            r.wf(),
    {
        HookManager { hooks: Vec::new() }
    }

    /// Number of registered hooks.
    pub fn len(&self) -> (n: usize)
        ensures
            n == self.spec_hooks().len(),
    {
        self.hooks.len()
    }

    /// Find the index registered under this name.
    fn find_index(&self, name: &str) -> (r: Option<usize>)
        ensures
            match r {
                Some(i) => i < self.spec_hooks().len() && self.spec_hooks()[i as int].config.name@
                    == name@,
                None => !spec_has_name(self.spec_hooks(), name@),
            },
    {
        let mut i: usize = 0;
        while i < self.hooks.len()
            invariant
                i <= self.hooks@.len(),
                forall|j: int| 0 <= j < i ==> self.hooks@[j].config.name@ != name@,
            decreases self.hooks@.len() - i,
        {
            let mut nc: Vec<char> = Vec::new();
            let hn = self.hooks[i].config.name.as_str();
            let hl = hn.unicode_len();
            let mut k: usize = 0;
            while k < hl
                invariant
                    k <= hn@.len(),
                    hl == hn@.len(),
                    nc@ == hn@.take(k as int),
                decreases hn@.len() - k,
            {
                nc.push(hn.get_char(k));
                proof {
                    assert(hn@.take(k as int + 1) =~= hn@.take(k as int).push(hn@[k as int]));
                }
                k += 1;
            }
            proof {
                assert(hn@.take(hn@.len() as int) =~= hn@);
            }
            if str_is(name, &nc) {
                return Some(i);
            }
            i += 1;
        }
        None
    }

    /// Register a hook. A hook already registered under the same name is
    /// replaced in place, keeping its position; a new name is appended, so
    /// registration order is insertion order.
    pub fn add_hook(&mut self, config: HookConfig)
        requires
            old(self).wf(),
        ensures
            final(self).wf(),
            spec_add_config(old(self).spec_hooks(), config, final(self).spec_hooks()),
    {
        let idx = self.find_index(config.name.as_str());
        let hook = Hook::new(config);
        match idx {
            Some(i) => {
                self.hooks.set(i, hook);
                proof {
                    assert forall|j: int|
                        0 <= j < old(self).spec_hooks().len() && old(self).spec_hooks()[j].config.name@ == hook.config.name@ implies j == i as int by {
                        if j != i as int {
                            assert(old(self).spec_hooks()[i as int].config.name@ == old(self).spec_hooks()[j].config.name@);
                        }
                    }
                }
            },
            None => {
                self.hooks.push(hook);
                proof {
                    assert(final(self).spec_hooks().drop_last() =~= old(self).spec_hooks());
                }
            },
        }
    }

    /// Build a registry from a list of configurations, registering them in
    /// list order.
    pub fn from_configs(configs: Vec<HookConfig>) -> (r: HookManager)
        ensures
            r.wf(),
            r.spec_hooks().len() <= configs@.len(),
            spec_registry_of(configs@, r.spec_hooks()),
            forall|i: int|
                0 <= i < configs@.len() ==> spec_has_name(
                    r.spec_hooks(),
                    (#[trigger] configs@[i]).name@,
                ),
            distinct_names(configs@) ==> r.spec_hooks().len() == configs@.len() && forall|i: int|
                0 <= i < configs@.len() ==> (#[trigger] r.spec_hooks()[i]).config == configs@[i]
                    && spec_parse_action_ok(configs@[i].action@, r.spec_hooks()[i].action),
    {
        let ghost orig = configs@;
        let mut configs = configs;
        let total = configs.len();
        let mut manager = HookManager::new();
        let mut done: usize = 0;
        proof {
            assert(orig.take(0) =~= Seq::<HookConfig>::empty());
        }
        while configs.len() > 0
            invariant
                total == orig.len(),
                done + configs@.len() == orig.len(),
                configs@ == orig.subrange(done as int, orig.len() as int),
                manager.wf(),
                manager.spec_hooks().len() <= done,
                spec_registry_of(orig.take(done as int), manager.spec_hooks()),
                forall|k: int|
                    0 <= k < done ==> spec_has_name(
                        manager.spec_hooks(),
                        (#[trigger] orig[k]).name@,
                    ),
            decreases configs@.len(),
        {
            let ghost before = manager.spec_hooks();
            let c = configs.remove(0);
            proof {
                assert(c == orig[done as int]);
                assert(orig.subrange(done as int, orig.len() as int).remove(0) =~= orig.subrange(
                    done as int + 1,
                    orig.len() as int,
                ));
            }
            let ghost cname = c.name@;
            manager.add_hook(c);
            proof {
                assert(orig.take(done as int + 1).drop_last() =~= orig.take(done as int));
                assert(orig.take(done as int + 1).last() == c);
                assert(spec_add_config(
                    before,
                    orig.take(done as int + 1).last(),
                    manager.spec_hooks(),
                ));
                assert(spec_registry_of(orig.take(done as int + 1), manager.spec_hooks()));
                if spec_has_name(before, cname) {
                    let w = choose|w: int|
                        0 <= w < before.len() && before[w].config.name@ == cname;
                    assert(manager.spec_hooks()[w].config.name@ == cname);
                } else {
                    assert(manager.spec_hooks().last().config.name@ == cname);
                }
                assert(spec_has_name(manager.spec_hooks(), cname));
                assert forall|k: int| 0 <= k < done + 1 implies spec_has_name(
                    manager.spec_hooks(),
                    (#[trigger] orig[k]).name@,
                ) by {
                    if k < done {
                        let m = choose|m: int|
                            0 <= m < before.len() && before[m].config.name@ == orig[k].name@;
                        if before[m].config.name@ == cname {
                            assert(spec_has_name(manager.spec_hooks(), cname));
                        } else {
                            assert(manager.spec_hooks()[m] == before[m]);
                        }
                    }
                }
            }
            done += 1;
        }
        proof {
            assert(orig.take(done as int) =~= orig);
            if distinct_names(orig) {
                lemma_registry_of_distinct(orig, manager.spec_hooks());
            }
        }
        manager
    }

    /// Remove the hook registered under this name; report whether one was.
    /// Afterwards no hook carries the name: names are unique, so removing
    /// the one match removes them all.
    pub fn remove_hook(&mut self, name: &str) -> (r: bool)
        requires
            old(self).wf(),
        ensures
            final(self).wf(),
            r == spec_has_name(old(self).spec_hooks(), name@),
            !spec_has_name(final(self).spec_hooks(), name@),
            r ==> exists|i: int|
                0 <= i < old(self).spec_hooks().len() && old(self).spec_hooks()[i].config.name@
                    == name@ && final(self).spec_hooks() == old(self).spec_hooks().remove(i),
            !r ==> *final(self) == *old(self),
    {
        match self.find_index(name) {
            Some(i) => {
                self.hooks.remove(i);
                proof {
                    let before = old(self).spec_hooks();
                    let after = final(self).spec_hooks();
                    assert forall|j: int| 0 <= j < after.len() implies (#[trigger] after[j]).config.name@
                        != name@ by {
                        if j < i as int {
                            assert(after[j] == before[j]);
                            if before[j].config.name@ == name@ {
                                assert(before[j].config.name@ == before[i as int].config.name@);
                            }
                        } else {
                            assert(after[j] == before[j + 1]);
                            if before[j + 1].config.name@ == name@ {
                                assert(before[i as int].config.name@ == before[j
                                    + 1].config.name@);
                            }
                        }
                    }
                }
                true
            },
            None => false,
        }
    }

    /// The hook registered under this name, if any.
    pub fn get_hook(&self, name: &str) -> (r: Option<&Hook>)
        ensures
            match r {
                Some(h) => exists|i: int|
                    0 <= i < self.spec_hooks().len() && self.spec_hooks()[i] == *h
                        && h.config.name@ == name@,
                None => !spec_has_name(self.spec_hooks(), name@),
            },
    {
        match self.find_index(name) {
            Some(i) => Some(&self.hooks[i]),
            None => None,
        }
    }

    /// Set whether the hook under this name is eligible to match; report
    /// whether such a hook exists. Everything else about it is kept.
    pub fn enable_hook(&mut self, name: &str, enabled: bool) -> (r: bool)
        requires
            old(self).wf(),
        ensures
            final(self).wf(),
            r == spec_has_name(old(self).spec_hooks(), name@),
            final(self).spec_hooks().len() == old(self).spec_hooks().len(),
            forall|j: int|
                0 <= j < old(self).spec_hooks().len() && old(self).spec_hooks()[j].config.name@
                    != name@ ==> final(self).spec_hooks()[j] == old(self).spec_hooks()[j],
            forall|j: int|
                0 <= j < old(self).spec_hooks().len() && old(self).spec_hooks()[j].config.name@
                    == name@ ==> {
                    let h = #[trigger] final(self).spec_hooks()[j];
                    let g = old(self).spec_hooks()[j];
                    &&& h.config.enabled == enabled
                    &&& h.config.name == g.config.name
                    &&& h.config.key_combination == g.config.key_combination
                    &&& h.config.action == g.config.action
                    &&& h.config.description == g.config.description
                    &&& h.action == g.action
                },
    {
        match self.find_index(name) {
            Some(i) => {
                let mut h = self.hooks.remove(i);
                h.config.enabled = enabled;
                self.hooks.insert(i, h);
                proof {
                    assert forall|j: int|
                        0 <= j < old(self).spec_hooks().len() && old(self).spec_hooks()[j].config.name@ == name@ implies j == i as int by {
                        if j != i as int {
                            assert(old(self).spec_hooks()[i as int].config.name@ == old(self).spec_hooks()[j].config.name@);
                        }
                    }
                    assert(final(self).spec_hooks() =~= old(self).spec_hooks().update(
                        i as int,
                        final(self).spec_hooks()[i as int],
                    ));
                }
                true
            },
            None => false,
        }
    }

    /// The interception decision for one key event, given what each hook's
    /// action would report: scan the enabled matching hooks in registration
    /// order and consume at the first action that reports consumption.
    pub fn process_key(&self, key: &KeyInput, outcomes: &Vec<bool>) -> (r: InterceptionResult)
        requires
            outcomes@.len() == self.spec_hooks().len(),
        ensures
            r == spec_scan(self.spec_hooks(), key.code, key.modifiers, outcomes@, 0),
    {
        let mut i: usize = 0;
        while i < self.hooks.len()
            invariant
                i <= self.hooks@.len(),
                outcomes@.len() == self.hooks@.len(),
                spec_scan(self.spec_hooks(), key.code, key.modifiers, outcomes@, 0) == spec_scan(
                    self.spec_hooks(),
                    key.code,
                    key.modifiers,
                    outcomes@,
                    i as int,
                ),
            decreases self.hooks@.len() - i,
        {
            if self.hooks[i].matches(key) && outcomes[i] {
                return InterceptionResult::Consumed;
            }
            i += 1;
        }
        InterceptionResult::PassThrough
    }

    /// The hook at a scan position, as `next_candidate` hands positions out.
    pub fn hook_at(&self, i: usize) -> (h: &Hook)
        requires
            i < self.spec_hooks().len(),
        ensures
            *h == self.spec_hooks()[i as int],
    {
        &self.hooks[i]
    }

    /// Every registered configuration, in registration order.
    pub fn list_hooks(&self) -> (r: Vec<&HookConfig>)
        ensures
            r@.len() == self.spec_hooks().len(),
            forall|i: int|
                0 <= i < r@.len() ==> *(#[trigger] r@[i]) == self.spec_hooks()[i].config,
    {
        let mut r: Vec<&HookConfig> = Vec::new();
        let mut i: usize = 0;
        while i < self.hooks.len()
            invariant
                i <= self.hooks@.len(),
                r@.len() == i,
                forall|j: int| 0 <= j < i ==> *(#[trigger] r@[j]) == self.spec_hooks()[j].config,
            decreases self.hooks@.len() - i,
        {
            r.push(&self.hooks[i].config);
            i += 1;
        }
        r
    }

    /// The configurations of the enabled hooks, in registration order.
    pub fn list_enabled_hooks(&self) -> (r: Vec<&HookConfig>)
        ensures
            r@.map_values(|c: &HookConfig| *c) == spec_enabled_configs(self.spec_hooks()),
    {
        let mut r: Vec<&HookConfig> = Vec::new();
        let mut i: usize = 0;
        proof {
            assert(r@.map_values(|c: &HookConfig| *c) =~= spec_enabled_configs(
                self.spec_hooks().take(0),
            ));
        }
        while i < self.hooks.len()
            invariant
                i <= self.hooks@.len(),
                r@.map_values(|c: &HookConfig| *c) == spec_enabled_configs(
                    self.spec_hooks().take(i as int),
                ),
            decreases self.hooks@.len() - i,
        {
            let ghost prev = r@.map_values(|c: &HookConfig| *c);
            proof {
                assert(self.spec_hooks().take(i as int + 1).drop_last() =~= self.spec_hooks().take(
                    i as int,
                ));
            }
            if self.hooks[i].config.enabled {
                r.push(&self.hooks[i].config);
                proof {
                    assert(r@.map_values(|c: &HookConfig| *c) =~= prev.push(
                        self.spec_hooks()[i as int].config,
                    ));
                }
            }
            i += 1;
        }
        proof {
            assert(self.spec_hooks().take(self.spec_hooks().len() as int) =~= self.spec_hooks());
        }
        r
    }

    /// The first enabled hook at or after `from` whose pattern matches the
    /// key: the next hook whose action the caller must run. `None` means the
    /// scan is over and the key passes through.
    pub fn next_candidate(&self, key: &KeyInput, from: usize) -> (r: Option<usize>)
        ensures
            match r {
                Some(i) => from <= i < self.spec_hooks().len() && spec_hook_matches(
                    self.spec_hooks()[i as int],
                    key.code,
                    key.modifiers,
                ) && forall|j: int|
                    from <= j < i ==> !spec_hook_matches(
                        #[trigger] self.spec_hooks()[j],
                        key.code,
                        key.modifiers,
                    ),
                None => forall|j: int|
                    from <= j < self.spec_hooks().len() ==> !spec_hook_matches(
                        #[trigger] self.spec_hooks()[j],
                        key.code,
                        key.modifiers,
                    ),
            },
    {
        let mut i: usize = from;
        if i > self.hooks.len() {
            return None;
        }
        while i < self.hooks.len()
            invariant
                from <= i <= self.hooks@.len(),
                forall|j: int|
                    from <= j < i ==> !spec_hook_matches(
                        #[trigger] self.spec_hooks()[j],
                        key.code,
                        key.modifiers,
                    ),
            decreases self.hooks@.len() - i,
        {
            if self.hooks[i].matches(key) {
                return Some(i);
            }
            i += 1;
        }
        None
    }
}

/// The default hook set: help on ctrl+;, the assistant prompt and reset on
/// ctrl+shift+l and ctrl+shift+q, configuration info on ctrl+shift+c, and,
/// disabled so the plain keys pass through, the clock on ctrl+t and screen
/// clearing on ctrl+l.
pub fn create_default_hooks() -> (r: Vec<HookConfig>)
    ensures
        r@.len() == 6,
        r@[0].name@ == "help"@,
        r@[0].key_combination@ == "ctrl+;"@,
        r@[0].action@ == "fn:show_help"@,
        r@[0].enabled,
        r@[1].name@ == "llm_prompt"@,
        r@[1].key_combination@ == "ctrl+shift+l"@,
        r@[1].action@ == "llm:prompt"@,
        r@[1].enabled,
        r@[2].name@ == "llm_reset"@,
        r@[2].key_combination@ == "ctrl+shift+q"@,
        r@[2].action@ == "llm:reset"@,
        r@[2].enabled,
        r@[3].name@ == "time"@,
        r@[3].key_combination@ == "ctrl+t"@,
        r@[3].action@ == "fn:show_time"@,
        !r@[3].enabled,
        r@[4].name@ == "clear"@,
        r@[4].key_combination@ == "ctrl+l"@,
        r@[4].action@ == "builtin:clear_screen"@,
        !r@[4].enabled,
        r@[5].name@ == "config_info"@,
        r@[5].key_combination@ == "ctrl+shift+c"@,
        r@[5].action@ == "builtin:show_config"@,
        r@[5].enabled,
        distinct_names(r@),
{
    let mut r: Vec<HookConfig> = Vec::new();
    r.push(
        HookConfig {
            name: "help".to_owned(),
            key_combination: "ctrl+;".to_owned(),
            action: "fn:show_help".to_owned(),
            description: Some("Show help information".to_owned()),
            enabled: true,
        },
    );
    r.push(
        HookConfig {
            name: "llm_prompt".to_owned(),
            key_combination: "ctrl+shift+l".to_owned(),
            action: "llm:prompt".to_owned(),
            description: Some("Open LLM prompt input".to_owned()),
            enabled: true,
        },
    );
    r.push(
        HookConfig {
            name: "llm_reset".to_owned(),
            key_combination: "ctrl+shift+q".to_owned(),
            action: "llm:reset".to_owned(),
            description: Some("Reset LLM conversation context".to_owned()),
            enabled: true,
        },
    );
    r.push(
        HookConfig {
            name: "time".to_owned(),
            key_combination: "ctrl+t".to_owned(),
            action: "fn:show_time".to_owned(),
            description: Some("Show current time".to_owned()),
            enabled: false,
        },
    );
    r.push(
        HookConfig {
            name: "clear".to_owned(),
            key_combination: "ctrl+l".to_owned(),
            action: "builtin:clear_screen".to_owned(),
            description: Some("Clear screen".to_owned()),
            enabled: false,
        },
    );
    r.push(
        HookConfig {
            name: "config_info".to_owned(),
            key_combination: "ctrl+shift+c".to_owned(),
            action: "builtin:show_config".to_owned(),
            description: Some("Show configuration info".to_owned()),
            enabled: true,
        },
    );
    proof {
        reveal_strlit("help");
        reveal_strlit("llm_prompt");
        reveal_strlit("llm_reset");
        reveal_strlit("time");
        reveal_strlit("clear");
        reveal_strlit("config_info");
        assert("help"@.len() == 4 && "llm_prompt"@.len() == 10 && "llm_reset"@.len() == 9
            && "time"@.len() == 4 && "clear"@.len() == 5 && "config_info"@.len() == 11);
        assert("help"@[0] != "time"@[0]);
        assert(distinct_names(r@));
    }
    r
}

} // verus!
