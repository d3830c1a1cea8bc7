//! What the host's commands decide. Reading the command line and the
//! configuration file, and printing, are the caller's part; these
//! functions take the values that were read and say what to do.
use vstd::prelude::*;

use crate::derivative::Derivative;
use crate::settings::{ApiConfig, BrokerApi, Settings, built_id, opt_view};
use crate::text::same_text;

verus! {

/// What to start trading with.
pub struct Start {
    isins: Vec<Derivative>,
    interval: core::time::Duration,
    api: ApiConfig,
    algorithm: String,
}

impl Start {
    pub closed spec fn spec_algorithm(&self) -> Seq<char> {
        self.algorithm@
    }

    pub closed spec fn spec_api(&self) -> ApiConfig {
        self.api
    }

    pub closed spec fn spec_isins(&self) -> Seq<Derivative> {
        self.isins@
    }

    pub closed spec fn spec_interval(&self) -> core::time::Duration {
        self.interval
    }

    pub fn new(isins: Vec<Derivative>, interval: core::time::Duration, api: ApiConfig, algorithm: String) -> (r: Self)
        ensures
            r.spec_isins() == isins@,
            r.spec_interval() == interval,
            r.spec_api() == api,
            r.spec_algorithm() == algorithm@,
    {
        Start { isins, interval, api, algorithm }
    }

    /// The instruments to trade.
    pub fn isins(&self) -> (r: &Vec<Derivative>)
        ensures
            r@ == self.spec_isins(),
    {
        &self.isins
    }

    /// The time between two steps.
    pub fn interval(&self) -> (r: core::time::Duration)
        ensures
            r == self.spec_interval(),
    {
        self.interval
    }

    /// The accounts to trade with.
    pub fn api(&self) -> (r: &ApiConfig)
        ensures
            *r == self.spec_api(),
    {
        &self.api
    }

    /// The name of the algorithm to trade with.
    pub fn algorithm(&self) -> (r: &String)
        ensures
            r@ == self.spec_algorithm(),
    {
        &self.algorithm
    }
}

/// What the host does after a command.
pub enum Action {
    Start(Start),
    /// Leave with this message.
    Exit(String),
    /// Leave; nothing more to do.
    Nothing,
    /// Leave with this message as a failure.
    Panic(String),
}

/// `a` is a failure with message `msg`.
pub open spec fn panics_with(a: Action, msg: Seq<char>) -> bool {
    match a {
        Action::Panic(m) => m@ == msg,
        _ => false,
    }
}

impl Action {
    pub fn is_none(&self) -> (r: bool)
        ensures
            r == (*self is Nothing),
    {
        if let Action::Nothing = self {
            true
        } else {
            false
        }
    }

    pub fn is_exit(&self) -> (r: bool)
        ensures
            r == (*self is Exit),
    {
        if let Action::Exit(_) = self {
            true
        } else {
            false
        }
    }

    pub fn is_panic(&self) -> (r: bool)
        ensures
            r == (*self is Panic),
    {
        if let Action::Panic(_) = self {
            true
        } else {
            false
        }
    }
}

/// `start`: trades `isins` in steps of `interval` with the current
/// algorithm and the configured accounts; without either, there is
/// nothing to start with.
pub fn start_with<A>(isins: Vec<Derivative>, interval: core::time::Duration, current_settings: &Settings<A>) -> (r: Action)
    ensures
        current_settings.spec_current_algorithm() is None ==> panics_with(r, "No algorithm selected yet"@),
        current_settings.spec_current_algorithm() is Some && current_settings.spec_api_config() is None
            ==> panics_with(r, "No apis defined yet"@),
        current_settings.spec_current_algorithm() is Some && current_settings.spec_api_config() is Some ==> match r {
            Action::Start(st) => {
                &&& st.spec_isins() == isins@
                &&& st.spec_interval() == interval
                &&& st.spec_algorithm() == current_settings.spec_current_algorithm()->Some_0@
                &&& st.spec_api().current_api == current_settings.spec_api_config()->Some_0.current_api
                &&& st.spec_api().apis@ == current_settings.spec_api_config()->Some_0.apis@
            },
            _ => false,
        },
{
    match current_settings.current_algorithm() {
        None => Action::Panic(String::from_str("No algorithm selected yet")),
        Some(name) => match current_settings.api_config() {
            None => Action::Panic(String::from_str("No apis defined yet")),
            Some(api) => Action::Start(Start::new(isins, interval, api.duplicate(), name.clone())),
        },
    }
}

/// `prefix` followed by `text`.
fn joined(prefix: &str, text: &str) -> (r: String)
    ensures
        r@ == prefix@ + text@,
{
    let mut r = String::from_str(prefix);
    r.append(text);
    r
}

/// Reads a switch given as `on` or `off`.
pub fn on_off_to_bool(value: &str) -> (r: bool)
    requires
        value@ == "on"@ || value@ == "off"@,
    ensures
        r == (value@ == "on"@),
{
    same_text(value, "on")
}

/// `settings save`: sets what is saved while trading.
pub fn parse_save<A>(order: Option<&str>, price: Option<&str>, current_settings: &mut Settings<A>) -> (r: Action)
    requires
        order matches Some(v) ==> v@ == "on"@ || v@ == "off"@,
        price matches Some(v) ==> v@ == "on"@ || v@ == "off"@,
    ensures
        r is Nothing,
        final(current_settings).spec_save_config().order == match order {
            Some(v) => v@ == "on"@,
            None => old(current_settings).spec_save_config().order,
        },
        final(current_settings).spec_save_config().price == match price {
            Some(v) => v@ == "on"@,
            None => old(current_settings).spec_save_config().price,
        },
        final(current_settings).spec_api_config() == old(current_settings).spec_api_config(),
        final(current_settings).spec_current_algorithm() == old(current_settings).spec_current_algorithm(),
        final(current_settings).spec_algorithms() == old(current_settings).spec_algorithms(),
{
    let mut save = current_settings.save_config();
    if let Some(order) = order {
        save.order = on_off_to_bool(order);
    }
    if let Some(price) = price {
        save.price = on_off_to_bool(price);
    }
    current_settings.set_save_config(save);
    Action::Nothing
}

/// `settings algorithms`: makes `change` the current algorithm, and checks
/// that `about` names a loaded algorithm (the caller shows its description).
/// The check of `about` is reported over that of `change`.
pub fn parse_algorithms<A>(change: Option<String>, about: Option<&str>, current_settings: &mut Settings<A>) -> (r: Action)
    requires
        old(current_settings).wf(),
    ensures
        final(current_settings).wf(),
        final(current_settings).spec_algorithms() == old(current_settings).spec_algorithms(),
        final(current_settings).spec_api_config() == old(current_settings).spec_api_config(),
        final(current_settings).spec_save_config() == old(current_settings).spec_save_config(),
        final(current_settings).spec_current_algorithm() == match change {
            Some(n) => if old(current_settings).spec_algorithms().has(n@) {
                Some(n)
            } else {
                old(current_settings).spec_current_algorithm()
            },
            None => old(current_settings).spec_current_algorithm(),
        },
        match about {
            Some(n) if !old(current_settings).spec_algorithms().has(n@) => panics_with(
                r,
                "Could not find the algorithm "@ + n@,
            ),
            _ => match change {
                Some(n) if !old(current_settings).spec_algorithms().has(n@) => panics_with(
                    r,
                    "Could not find the algorithm "@ + n@,
                ),
                _ => r is Nothing,
            },
        },
{
    let mut action = Action::Nothing;
    if let Some(name) = change {
        let msg = joined("Could not find the algorithm ", name.as_str());
        if current_settings.set_current_algorithm(name).is_err() {
            action = Action::Panic(msg);
        }
    }
    if let Some(name) = about {
        if !current_settings.algorithms().contains(name) {
            action = Action::Panic(joined("Could not find the algorithm ", name));
        }
    }
    action
}

/// `settings apis --change`: makes the account with id `change` the one in
/// use. Where there is none, the result is a failure and nothing changes;
/// otherwise, and without `change`, the result is `action`.
pub fn parse_apis<A>(action: Action, change: Option<&str>, current_settings: &mut Settings<A>) -> (r: Action)
    ensures
        final(current_settings).spec_algorithms() == old(current_settings).spec_algorithms(),
        final(current_settings).spec_save_config() == old(current_settings).spec_save_config(),
        final(current_settings).spec_current_algorithm() == old(current_settings).spec_current_algorithm(),
        match change {
            None => r == action && final(current_settings).spec_api_config() == old(current_settings).spec_api_config(),
            Some(id) => match old(current_settings).spec_api_config() {
                None => panics_with(r, "No apis defined yet"@)
                    && final(current_settings).spec_api_config() == old(current_settings).spec_api_config(),
                Some(c) => if c.ids().contains(id@) {
                    &&& r == action
                    &&& final(current_settings).spec_api_config() matches Some(n)
                    &&& n.current_api@ == id@
                    &&& n.apis == c.apis
                } else {
                    panics_with(r, "Could not find the api "@ + id@)
                        && final(current_settings).spec_api_config() == old(current_settings).spec_api_config()
                },
            },
        },
{
    match change {
        None => action,
        Some(id) => match current_settings.api_config_mut() {
            Some(c) => {
                if c.contains_id(id) {
                    c.current_api = id.to_owned();
                    action
                } else {
                    Action::Panic(joined("Could not find the api ", id))
                }
            },
            None => Action::Panic(String::from_str("No apis defined yet")),
        },
    }
}

/// `cfg` is `old` with `api` added: appended to the accounts, or, where
/// there were none, the only account and the one in use.
pub open spec fn api_added(old: Option<ApiConfig>, cfg: Option<ApiConfig>, api: BrokerApi) -> bool {
    match cfg {
        None => false,
        Some(n) => match old {
            Some(o) => n.current_api == o.current_api && n.apis@ == o.apis@.push(api),
            None => n.current_api@ == api.spec_id() && n.apis@ == seq![api],
        },
    }
}

/// `settings apis add`: adds an account at `broker`. A given id must not
/// be taken; without one, the id is settled as `BrokerApi::build` does.
pub fn parse_apis_add<A>(
    id: Option<String>,
    broker: String,
    key: Option<String>,
    secret: Option<String>,
    username: Option<String>,
    password: Option<String>,
    current_settings: &mut Settings<A>,
) -> (r: Action)
    requires
        match old(current_settings).spec_api_config() {
            Some(c) => c.apis@.len() < u32::MAX,
            None => true,
        },
    ensures
        final(current_settings).spec_algorithms() == old(current_settings).spec_algorithms(),
        final(current_settings).spec_save_config() == old(current_settings).spec_save_config(),
        final(current_settings).spec_current_algorithm() == old(current_settings).spec_current_algorithm(),
        match id {
            Some(i) if old(current_settings).id_taken(i@) => panics_with(r, "This id is already in use"@)
                && final(current_settings).spec_api_config() == old(current_settings).spec_api_config(),
            _ => r is Nothing && exists|api: BrokerApi|
                {
                    &&& api.spec_id() == built_id(opt_view(id), broker@, old(current_settings).spec_api_config())
                    &&& api.spec_broker() == broker@
                    &&& api.spec_key() == opt_view(key)
                    &&& api.spec_secret() == opt_view(secret)
                    &&& api.spec_username() == opt_view(username)
                    &&& api.spec_password() == opt_view(password)
                    &&& api_added(
                        old(current_settings).spec_api_config(),
                        final(current_settings).spec_api_config(),
                        api,
                    )
                },
        },
{
    if let Some(i) = &id {
        if BrokerApi::id_exists(current_settings, i.as_str()) {
            return Action::Panic(String::from_str("This id is already in use"));
        }
    }
    let broker_api = BrokerApi::builder(broker).id(id).key(key).secret(secret).username(username).password(
        password,
    ).build(current_settings);
    let ghost api = broker_api;
    match current_settings.api_config_mut() {
        Some(api_config) => {
            api_config.apis.push(broker_api);
        },
        None => {
            let current_api = broker_api.id().clone();
            let mut apis = Vec::new();
            apis.push(broker_api);
            proof {
                assert(apis@ =~= seq![api]);
            }
            *current_settings.api_config_mut() = Some(ApiConfig { current_api, apis });
        },
    }
    Action::Nothing
}

/// `settings apis remove`: removes the last account with id `id`. Removing
/// the only account leaves none; otherwise the last remaining account
/// becomes the one in use.
pub fn parse_apis_remove<A>(id: &str, current_settings: &mut Settings<A>) -> (r: Action)
    ensures
        final(current_settings).spec_algorithms() == old(current_settings).spec_algorithms(),
        final(current_settings).spec_save_config() == old(current_settings).spec_save_config(),
        final(current_settings).spec_current_algorithm() == old(current_settings).spec_current_algorithm(),
        match old(current_settings).spec_api_config() {
            None => panics_with(r, "no saved apis to remove"@)
                && final(current_settings).spec_api_config() == old(current_settings).spec_api_config(),
            Some(c) => if !c.ids().contains(id@) {
                panics_with(r, "could not find "@ + id@)
                    && final(current_settings).spec_api_config() == old(current_settings).spec_api_config()
            } else {
                r is Nothing && exists|i: int|
                    {
                        &&& 0 <= i < c.apis@.len()
                        &&& c.ids()[i] == id@
                        &&& forall|k: int| i < k < c.apis@.len() ==> c.ids()[k] != id@
                        &&& if c.apis@.len() == 1 {
                            final(current_settings).spec_api_config() is None
                        } else {
                            &&& final(current_settings).spec_api_config() matches Some(n)
                            &&& n.apis@ == c.apis@.remove(i)
                            &&& n.current_api@ == c.apis@.remove(i).last().spec_id()
                        }
                    }
            },
        },
{
    let mut none = false;
    match current_settings.api_config_mut() {
        Some(api_config) => {
            let ghost c = *api_config;
            let mut index: Option<usize> = None;
            let mut k: usize = api_config.apis.len();
            while k > 0
                invariant_except_break
                    index is None,
                    forall|j: int| k <= j < c.apis@.len() ==> c.ids()[j] != id@,
                invariant
                    *api_config == c,
                    k <= c.apis@.len(),
                ensures
                    match index {
                        Some(i) => i < c.apis@.len() && c.ids()[i as int] == id@ && forall|j: int|
                            i < j < c.apis@.len() ==> c.ids()[j] != id@,
                        None => forall|j: int| 0 <= j < c.apis@.len() ==> c.ids()[j] != id@,
                    },
                decreases k,
            {
                k = k - 1;
                if same_text(api_config.apis[k].id().as_str(), id) {
                    index = Some(k);
                    break;
                }
            }
            match index {
                Some(i) => {
                    let ghost ii = i as int;
                    assert(c.ids()[ii] == id@);
                    if api_config.apis.len() == 1 {
                        none = true;
                    } else {
                        api_config.apis.remove(i);
                        let n = api_config.apis.len();
                        api_config.current_api = api_config.apis[n - 1].id().clone();
                    }
                },
                None => {
                    proof {
                        if c.ids().contains(id@) {
                            let j = choose|j: int| 0 <= j < c.ids().len() && c.ids()[j] == id@;
                            assert(c.ids()[j] != id@);
                        }
                    }
                    return Action::Panic(joined("could not find ", id));
                },
            }
        },
        None => {
            return Action::Panic(String::from_str("no saved apis to remove"));
        },
    }
    if none {
        *current_settings.api_config_mut() = None;
    }
    Action::Nothing
}

/// Whether `c` has Unicode's White_Space property.
pub open spec fn is_white_space(c: char) -> bool {
    let n = c as u32;
    ||| 0x9 <= n <= 0xd
    ||| n == 0x20
    ||| n == 0x85
    ||| n == 0xa0
    ||| n == 0x1680
    ||| 0x2000 <= n <= 0x200a
    ||| n == 0x2028
    ||| n == 0x2029
    ||| n == 0x202f
    ||| n == 0x205f
    ||| n == 0x3000
}

/// The words of a text: its longest runs of characters that are not white
/// space, in order.
pub open spec fn words_of(s: Seq<char>) -> Seq<Seq<char>>
    decreases s.len(),
{
    if s.len() == 0 {
        Seq::empty()
    } else {
        let w = words_of(s.drop_last());
        let c = s.last();
        if is_white_space(c) {
            w
        } else if s.len() >= 2 && !is_white_space(s[s.len() - 2]) {
            w.update(w.len() - 1, w.last().push(c))
        } else {
            w.push(seq![c])
        }
    }
}

/// Relies on `str::split_whitespace`: the words of `s` between runs of
/// Unicode white space, in order.
#[verifier::external_body]
fn split_words(s: &str) -> (r: Vec<String>)
    ensures
        r@.map_values(|w: String| w@) == words_of(s@),
{
    s.split_whitespace().map(|w| w.to_string()).collect()
}

/// Which kinds of output were asked for so far.
#[derive(Clone, Copy, Debug, PartialEq, Eq, Structural)]
pub struct OutputFlags {
    pub text: bool,
    pub chart: bool,
    pub full: bool,
    pub none: bool,
}

/// The flags after the word `w`, or why `w` cannot stand beside the
/// earlier words: text and chart exclude each other, as do full and none,
/// and beside full or none only text and chart may stand.
pub open spec fn output_step(f: OutputFlags, w: Seq<char>) -> Result<OutputFlags, Seq<char>> {
    if w == "text"@ && !f.chart {
        Ok(OutputFlags { text: true, ..f })
    } else if w == "text"@ {
        Err("text output cannot live side by side with chart"@)
    } else if w == "chart"@ && !f.text {
        Ok(OutputFlags { chart: true, ..f })
    } else if w == "chart"@ {
        Err("chart output cannot live side by side with text"@)
    } else if w == "full"@ && !f.none {
        Ok(OutputFlags { full: true, ..f })
    } else if w == "full"@ {
        Err("full output cannot live side by side with none"@)
    } else if w == "none"@ && !f.full {
        Ok(OutputFlags { none: true, ..f })
    } else if w == "none"@ {
        Err("none output cannot live side by side with full"@)
    } else if f.full {
        Err(w + " output cannot live side by side with full"@)
    } else if f.none {
        Err(w + " output cannot live side by side with none"@)
    } else {
        Ok(f)
    }
}

/// The flags after all of `words`, or the complaint about the first word
/// that does not fit.
pub open spec fn output_check(words: Seq<Seq<char>>) -> Result<OutputFlags, Seq<char>>
    decreases words.len(),
{
    if words.len() == 0 {
        Ok(OutputFlags { text: false, chart: false, full: false, none: false })
    } else {
        match output_check(words.drop_last()) {
            Ok(f) => output_step(f, words.last()),
            Err(e) => Err(e),
        }
    }
}

proof fn lemma_check_err_persists(ws: Seq<Seq<char>>, n: int)
    requires
        0 <= n <= ws.len(),
        output_check(ws.take(n)) is Err,
    ensures
        output_check(ws) == output_check(ws.take(n)),
    decreases ws.len() - n,
{
    if n == ws.len() {
        assert(ws.take(n) =~= ws);
    } else {
        assert(ws.take(n + 1).drop_last() =~= ws.take(n));
        lemma_check_err_persists(ws, n + 1);
    }
}

/// Checks the words of an output selection, in order.
pub fn validate_output_words(words: &Vec<String>) -> (r: Result<(), String>)
    ensures
        match output_check(words@.map_values(|w: String| w@)) {
            Ok(_) => r is Ok,
            Err(e) => r matches Err(m) && m@ == e,
        },
{
    let ghost ws = words@.map_values(|w: String| w@);
    let mut f = OutputFlags { text: false, chart: false, full: false, none: false };
    let mut i: usize = 0;
    while i < words.len()
        invariant
            i <= words@.len(),
            ws == words@.map_values(|w: String| w@),
            output_check(ws.take(i as int)) == Ok::<OutputFlags, Seq<char>>(f),
        decreases words@.len() - i,
    {
        let w = words[i].as_str();
        assert(ws.take(i + 1).drop_last() =~= ws.take(i as int));
        assert(ws.take(i + 1).last() == w@);
        if same_text(w, "text") && !f.chart {
            f.text = true;
        } else if same_text(w, "text") {
            proof {
                lemma_check_err_persists(ws, i + 1);
            }
            return Err(String::from_str("text output cannot live side by side with chart"));
        } else if same_text(w, "chart") && !f.text {
            f.chart = true;
        } else if same_text(w, "chart") {
            proof {
                lemma_check_err_persists(ws, i + 1);
            }
            return Err(String::from_str("chart output cannot live side by side with text"));
        } else if same_text(w, "full") && !f.none {
            f.full = true;
        } else if same_text(w, "full") {
            proof {
                lemma_check_err_persists(ws, i + 1);
            }
            return Err(String::from_str("full output cannot live side by side with none"));
        } else if same_text(w, "none") && !f.full {
            f.none = true;
        } else if same_text(w, "none") {
            proof {
                lemma_check_err_persists(ws, i + 1);
            }
            return Err(String::from_str("none output cannot live side by side with full"));
        } else if f.full {
            proof {
                lemma_check_err_persists(ws, i + 1);
            }
            return Err(joined(w, " output cannot live side by side with full"));
        } else if f.none {
            proof {
                lemma_check_err_persists(ws, i + 1);
            }
            return Err(joined(w, " output cannot live side by side with none"));
        }
        i = i + 1;
    }
    assert(ws.take(i as int) =~= ws);
    Ok(())
}

/// Checks an output selection given as whitespace-separated words.
pub fn validate_start_output(value: &String) -> (r: Result<(), String>)
    ensures
        match output_check(words_of(value@)) {
            Ok(_) => r is Ok,
            Err(e) => r matches Err(m) && m@ == e,
        },
{
    let words = split_words(value.as_str());
    validate_output_words(&words)
}

} // verus!
