//! The host's settings: broker accounts, what is saved while trading, and
//! the current algorithm.
use vstd::prelude::*;

use crate::load::{Algorithms, listing};

verus! {

/// What is saved while trading.
#[derive(Clone, Copy, Debug, PartialEq, Eq, Structural)]
pub struct SaveConfig {
    pub order: bool,
    pub price: bool,
}

impl SaveConfig {
    /// Orders are saved, prices are not.
    pub fn default() -> (r: Self)
        ensures
            r.order && !r.price,
    {
        SaveConfig { order: true, price: false }
    }

    /// `on` or `off`.
    pub open spec fn spec_on_off(b: bool) -> Seq<char> {
        if b {
            "on"@
        } else {
            "off"@
        }
    }

    fn on_off(b: bool) -> (r: &'static str)
        ensures
            r@ == Self::spec_on_off(b),
    {
        if b {
            "on"
        } else {
            "off"
        }
    }

    /// The section as it is shown to the user.
    pub fn describe(&self) -> (r: String)
        ensures
            r@ == "SAVE:\n\torder: "@ + Self::spec_on_off(self.order) + "\n\tprice: "@
                + Self::spec_on_off(self.price),
    {
        let mut r = String::from_str("SAVE:\n\torder: ");
        r.append(Self::on_off(self.order));
        r.append("\n\tprice: ");
        r.append(Self::on_off(self.price));
        r
    }
}

/// Access to one account at a broker.
#[derive(Clone, Debug, PartialEq)]
pub struct BrokerApi {
    id: String,
    broker: String,
    key: Option<String>,
    secret: Option<String>,
    username: Option<String>,
    password: Option<String>,
}

/// The text of an optional string.
pub open spec fn opt_view(o: Option<String>) -> Option<Seq<char>> {
    match o {
        Some(s) => Some(s@),
        None => None,
    }
}

/// A copy of an optional text.
fn copy_text(o: &Option<String>) -> (r: Option<String>)
    ensures
        r == *o,
{
    match o {
        Some(s) => Some(s.clone()),
        None => None,
    }
}

impl BrokerApi {
    pub closed spec fn spec_id(&self) -> Seq<char> {
        self.id@
    }

    pub closed spec fn spec_broker(&self) -> Seq<char> {
        self.broker@
    }

    pub closed spec fn spec_key(&self) -> Option<Seq<char>> {
        opt_view(self.key)
    }

    pub closed spec fn spec_secret(&self) -> Option<Seq<char>> {
        opt_view(self.secret)
    }

    pub closed spec fn spec_username(&self) -> Option<Seq<char>> {
        opt_view(self.username)
    }

    pub closed spec fn spec_password(&self) -> Option<Seq<char>> {
        opt_view(self.password)
    }

    pub fn id(&self) -> (r: &String)
        ensures
            r@ == self.spec_id(),
    {
        &self.id
    }

    pub fn broker(&self) -> (r: &String)
        ensures
            r@ == self.spec_broker(),
    {
        &self.broker
    }

    pub fn key(&self) -> (r: &Option<String>)
        ensures
            opt_view(*r) == self.spec_key(),
    {
        &self.key
    }

    pub fn secret(&self) -> (r: &Option<String>)
        ensures
            opt_view(*r) == self.spec_secret(),
    {
        &self.secret
    }

    pub fn username(&self) -> (r: &Option<String>)
        ensures
            opt_view(*r) == self.spec_username(),
    {
        &self.username
    }

    pub fn password(&self) -> (r: &Option<String>)
        ensures
            opt_view(*r) == self.spec_password(),
    {
        &self.password
    }

    /// An account as it was stored; its id is taken as it is.
    pub fn from_parts(
        id: String,
        broker: String,
        key: Option<String>,
        secret: Option<String>,
        username: Option<String>,
        password: Option<String>,
    ) -> (r: BrokerApi)
        ensures
            r.spec_id() == id@,
            r.spec_broker() == broker@,
            r.spec_key() == opt_view(key),
            r.spec_secret() == opt_view(secret),
            r.spec_username() == opt_view(username),
            r.spec_password() == opt_view(password),
    {
        BrokerApi { id, broker, key, secret, username, password }
    }

    /// A builder for an account at `broker`, with nothing else set.
    pub fn builder(broker: String) -> (r: BrokerApiBuilder)
        ensures
            r.spec_id() is None,
            r.spec_broker() == broker@,
            r.spec_key() is None,
            r.spec_secret() is None,
            r.spec_username() is None,
            r.spec_password() is None,
    {
        BrokerApiBuilder {
            id: None,
            broker,
            key: None,
            secret: None,
            username: None,
            password: None,
        }
    }

    /// Whether an account with this id is configured.
    pub fn id_exists<A>(current_settings: &Settings<A>, id: &str) -> (r: bool)
        ensures
            r == current_settings.id_taken(id@),
    {
        match &current_settings.api_config {
            Some(api_config) => api_config.contains_id(id),
            None => false,
        }
    }

    /// A copy of this account.
    pub fn duplicate(&self) -> (r: BrokerApi)
        ensures
            r == *self,
    {
        BrokerApi {
            id: self.id.clone(),
            broker: self.broker.clone(),
            key: copy_text(&self.key),
            secret: copy_text(&self.secret),
            username: copy_text(&self.username),
            password: copy_text(&self.password),
        }
    }

    /// `<id> (<broker>)`.
    pub fn describe(&self) -> (r: String)
        ensures
            r@ == self.spec_id() + " ("@ + self.spec_broker() + ")"@,
    {
        let mut r = String::from_str(self.id.as_str());
        r.append(" (");
        r.append(self.broker.as_str());
        r.append(")");
        r
    }
}

/// Builds a `BrokerApi`; the id is settled when it is built.
#[derive(Clone, Debug, PartialEq)]
pub struct BrokerApiBuilder {
    id: Option<String>,
    broker: String,
    key: Option<String>,
    secret: Option<String>,
    username: Option<String>,
    password: Option<String>,
}

impl BrokerApiBuilder {
    pub closed spec fn spec_id(&self) -> Option<Seq<char>> {
        opt_view(self.id)
    }

    pub closed spec fn spec_broker(&self) -> Seq<char> {
        self.broker@
    }

    pub closed spec fn spec_key(&self) -> Option<Seq<char>> {
        opt_view(self.key)
    }

    pub closed spec fn spec_secret(&self) -> Option<Seq<char>> {
        opt_view(self.secret)
    }

    pub closed spec fn spec_username(&self) -> Option<Seq<char>> {
        opt_view(self.username)
    }

    pub closed spec fn spec_password(&self) -> Option<Seq<char>> {
        opt_view(self.password)
    }

    pub fn id(self, id: Option<String>) -> (r: Self)
        ensures
            r.spec_id() == opt_view(id),
            r.spec_broker() == self.spec_broker(),
            r.spec_key() == self.spec_key(),
            r.spec_secret() == self.spec_secret(),
            r.spec_username() == self.spec_username(),
            r.spec_password() == self.spec_password(),
    {
        let mut s = self;
        s.id = id;
        s
    }

    pub fn key(self, key: Option<String>) -> (r: Self)
        ensures
            r.spec_id() == self.spec_id(),
            r.spec_broker() == self.spec_broker(),
            r.spec_key() == opt_view(key),
            r.spec_secret() == self.spec_secret(),
            r.spec_username() == self.spec_username(),
            r.spec_password() == self.spec_password(),
    {
        let mut s = self;
        s.key = key;
        s
    }

    pub fn secret(self, secret: Option<String>) -> (r: Self)
        ensures
            r.spec_id() == self.spec_id(),
            r.spec_broker() == self.spec_broker(),
            r.spec_key() == self.spec_key(),
            r.spec_secret() == opt_view(secret),
            r.spec_username() == self.spec_username(),
            r.spec_password() == self.spec_password(),
    {
        let mut s = self;
        s.secret = secret;
        s
    }

    pub fn username(self, username: Option<String>) -> (r: Self)
        ensures
            r.spec_id() == self.spec_id(),
            r.spec_broker() == self.spec_broker(),
            r.spec_key() == self.spec_key(),
            r.spec_secret() == self.spec_secret(),
            r.spec_username() == opt_view(username),
            r.spec_password() == self.spec_password(),
    {
        let mut s = self;
        s.username = username;
        s
    }

    pub fn password(self, password: Option<String>) -> (r: Self)
        ensures
            r.spec_id() == self.spec_id(),
            r.spec_broker() == self.spec_broker(),
            r.spec_key() == self.spec_key(),
            r.spec_secret() == self.spec_secret(),
            r.spec_username() == self.spec_username(),
            r.spec_password() == opt_view(password),
    {
        let mut s = self;
        s.password = password;
        s
    }

    /// Builds the account. A given id is kept; it must not be taken. With
    /// none given, the id is the broker's name where no account is
    /// configured, else the first of its candidates that is not taken.
    pub fn build<A>(self, current_settings: &mut Settings<A>) -> (r: BrokerApi)
        requires
            match self.spec_id() {
                Some(id) => !old(current_settings).id_taken(id),
                None => true,
            },
            match old(current_settings).spec_api_config() {
                Some(c) => c.apis@.len() < u32::MAX,
                None => true,
            },
        ensures
            *final(current_settings) == *old(current_settings),
            match self.spec_id() {
                Some(id) => r.spec_id() == id,
                None => match old(current_settings).spec_api_config() {
                    None => r.spec_id() == self.spec_broker(),
                    Some(c) => exists|k: nat|
                        {
                            &&& r.spec_id() == candidate(self.spec_broker(), k)
                            &&& !c.ids().contains(candidate(self.spec_broker(), k))
                            &&& forall|j: nat|
                                j < k ==> c.ids().contains(#[trigger] candidate(self.spec_broker(), j))
                        },
                },
            },
            r.spec_id() == built_id(self.spec_id(), self.spec_broker(), old(current_settings).spec_api_config()),
            r.spec_broker() == self.spec_broker(),
            r.spec_key() == self.spec_key(),
            r.spec_secret() == self.spec_secret(),
            r.spec_username() == self.spec_username(),
            r.spec_password() == self.spec_password(),
    {
        let ghost mut found: nat = 0;
        let id = match self.id {
            Some(id) => id,
            None => match &current_settings.api_config {
                None => self.broker.clone(),
                Some(c) => {
                    let ghost ids = c.ids();
                    let ghost broker = self.broker@;
                    let mut id = self.broker.clone();
                    let mut counter: u32 = 1;
                    proof {
                        lemma_count_le(ids, id@.len() as int, id@.len() as int);
                    }
                    while c.contains_id(id.as_str())
                        invariant
                            ids == c.ids(),
                            ids.len() < u32::MAX,
                            1 <= counter,
                            id@ == candidate(broker, (counter - 1) as nat),
                            forall|j: nat| j < counter - 1 ==> ids.contains(#[trigger] candidate(broker, j)),
                            counter - 1 + count_long(ids, id@.len() as int) <= ids.len(),
                        decreases count_long(ids, id@.len() as int),
                    {
                        let ghost old_id = id@;
                        proof {
                            lemma_decimal_nonempty(counter as nat);
                            lemma_count_long(ids, old_id, old_id.len() + 1int);
                        }
                        let digits = decimal_text(counter);
                        id.append(digits.as_str());
                        proof {
                            lemma_count_long(ids, old_id, id@.len() as int);
                            assert(candidate(broker, counter as nat) == candidate(broker, (counter - 1) as nat) + decimal(counter as nat));
                            assert forall|j: nat| j < counter implies ids.contains(#[trigger] candidate(broker, j)) by {
                                if j == counter - 1 {
                                    assert(candidate(broker, j) == old_id);
                                }
                            }
                        }
                        counter = counter + 1;
                    }
                    proof {
                        let k = (counter - 1) as nat;
                        assert(id@ == candidate(broker, k) && !ids.contains(candidate(broker, k)));
                        found = k;
                    }
                    id
                }
            },
        };
        let r = BrokerApi {
            id,
            broker: self.broker,
            key: self.key,
            secret: self.secret,
            username: self.username,
            password: self.password,
        };
        proof {
            if self.id is None && current_settings.api_config is Some {
                assert(r.spec_id() == candidate(self.spec_broker(), found));
                lemma_first_free(self.spec_broker(), current_settings.spec_api_config()->Some_0.ids(), found);
            }
        }
        r
    }
}

/// The decimal digit `d`.
pub open spec fn digit_char(d: nat) -> char {
    if d == 0 {
        '0'
    } else if d == 1 {
        '1'
    } else if d == 2 {
        '2'
    } else if d == 3 {
        '3'
    } else if d == 4 {
        '4'
    } else if d == 5 {
        '5'
    } else if d == 6 {
        '6'
    } else if d == 7 {
        '7'
    } else if d == 8 {
        '8'
    } else {
        '9'
    }
}

/// `n` written in decimal, without leading zeros.
pub open spec fn decimal(n: nat) -> Seq<char>
    decreases n,
{
    if n < 10 {
        seq![digit_char(n)]
    } else {
        decimal(n / 10) + seq![digit_char(n % 10)]
    }
}

fn digit_text(d: u32) -> (r: &'static str)
    requires
        d < 10,
    ensures
        r@ =~= seq![digit_char(d as nat)],
{
    proof {
        reveal_strlit("0");
        reveal_strlit("1");
        reveal_strlit("2");
        reveal_strlit("3");
        reveal_strlit("4");
        reveal_strlit("5");
        reveal_strlit("6");
        reveal_strlit("7");
        reveal_strlit("8");
        reveal_strlit("9");
    }
    if d == 0 {
        "0"
    } else if d == 1 {
        "1"
    } else if d == 2 {
        "2"
    } else if d == 3 {
        "3"
    } else if d == 4 {
        "4"
    } else if d == 5 {
        "5"
    } else if d == 6 {
        "6"
    } else if d == 7 {
        "7"
    } else if d == 8 {
        "8"
    } else {
        "9"
    }
}

/// `n` written in decimal.
fn decimal_text(n: u32) -> (r: String)
    ensures
        r@ == decimal(n as nat),
    decreases n,
{
    if n < 10 {
        String::from_str(digit_text(n))
    } else {
        let mut r = decimal_text(n / 10);
        r.append(digit_text(n % 10));
        r
    }
}

/// The `k`-th id tried for a new account at `broker`: the broker's name,
/// then each time the next counter appended to the previous try.
pub open spec fn candidate(broker: Seq<char>, k: nat) -> Seq<char>
    decreases k,
{
    if k == 0 {
        broker
    } else {
        candidate(broker, (k - 1) as nat) + decimal(k)
    }
}

/// `k` is the first candidate for `broker` that none of `ids` takes.
pub open spec fn first_free_at(broker: Seq<char>, ids: Seq<Seq<char>>, k: nat) -> bool {
    &&& !ids.contains(candidate(broker, k))
    &&& forall|j: nat| j < k ==> ids.contains(#[trigger] candidate(broker, j))
}

/// The first candidate for `broker` that none of `ids` takes.
pub open spec fn first_free(broker: Seq<char>, ids: Seq<Seq<char>>) -> Seq<char> {
    candidate(broker, choose|k: nat| first_free_at(broker, ids, k))
}

/// The id a new account gets: the given one, else the broker's name where
/// no account is configured, else the first free candidate.
pub open spec fn built_id(given: Option<Seq<char>>, broker: Seq<char>, cfg: Option<ApiConfig>) -> Seq<char> {
    match given {
        Some(id) => id,
        None => match cfg {
            None => broker,
            Some(c) => first_free(broker, c.ids()),
        },
    }
}

proof fn lemma_first_free(broker: Seq<char>, ids: Seq<Seq<char>>, k: nat)
    requires
        first_free_at(broker, ids, k),
    ensures
        first_free(broker, ids) == candidate(broker, k),
{
    let c = choose|c: nat| first_free_at(broker, ids, c);
    if c < k {
        assert(ids.contains(candidate(broker, c)));
    } else if c > k {
        assert(ids.contains(candidate(broker, k)));
    }
}

/// How many of `ids` are at least `n` characters long.
pub open spec fn count_long(ids: Seq<Seq<char>>, n: int) -> nat
    decreases ids.len(),
{
    if ids.len() == 0 {
        0
    } else {
        count_long(ids.drop_last(), n) + if ids.last().len() >= n {
            1nat
        } else {
            0nat
        }
    }
}

proof fn lemma_count_long(ids: Seq<Seq<char>>, x: Seq<char>, m: int)
    requires
        ids.contains(x),
        m > x.len(),
    ensures
        count_long(ids, m) < count_long(ids, x.len() as int),
        count_long(ids, x.len() as int) <= ids.len(),
    decreases ids.len(),
{
    lemma_count_le(ids, m, x.len() as int);
    if ids.last() == x {
        lemma_count_le(ids.drop_last(), m, x.len() as int);
    } else {
        let k = choose|k: int| 0 <= k < ids.len() && ids[k] == x;
        assert(ids.drop_last()[k] == x);
        lemma_count_long(ids.drop_last(), x, m);
    }
}

proof fn lemma_count_le(ids: Seq<Seq<char>>, m: int, n: int)
    requires
        m >= n,
    ensures
        count_long(ids, m) <= count_long(ids, n),
        count_long(ids, n) <= ids.len(),
    decreases ids.len(),
{
    if ids.len() > 0 {
        lemma_count_le(ids.drop_last(), m, n);
    }
}

proof fn lemma_decimal_nonempty(n: nat)
    ensures
        decimal(n).len() >= 1,
{
}

/// The configured broker accounts and the one in use.
#[derive(Clone, Debug, PartialEq)]
pub struct ApiConfig {
    pub current_api: String,
    pub apis: Vec<BrokerApi>,
}

/// Each account as `\n\t<id> (<broker>)`, in order.
pub open spec fn api_listing(apis: Seq<BrokerApi>) -> Seq<char>
    decreases apis.len(),
{
    if apis.len() == 0 {
        Seq::empty()
    } else {
        api_listing(apis.drop_last()) + "\n\t"@ + apis.last().spec_id() + " ("@ + apis.last().spec_broker()
            + ")"@
    }
}

/// The accounts section as it is shown to the user.
pub open spec fn api_config_text(c: ApiConfig) -> Seq<char> {
    "CURRENT API: "@ + c.current_api@ + "\n\nAPIS: "@ + api_listing(c.apis@)
}

impl ApiConfig {
    /// The account in use, then every account on a line of its own.
    pub fn describe(&self) -> (r: String)
        ensures
            r@ == api_config_text(*self),
    {
        let mut all = String::new();
        let mut i: usize = 0;
        while i < self.apis.len()
            invariant
                i <= self.apis@.len(),
                all@ == api_listing(self.apis@.take(i as int)),
            decreases self.apis@.len() - i,
        {
            let line = self.apis[i].describe();
            all.append("\n\t");
            all.append(line.as_str());
            proof {
                assert(self.apis@.take(i + 1).drop_last() =~= self.apis@.take(i as int));
            }
            i = i + 1;
        }
        proof {
            assert(self.apis@.take(i as int) =~= self.apis@);
        }
        let mut r = String::from_str("CURRENT API: ");
        r.append(self.current_api.as_str());
        r.append("\n\nAPIS: ");
        r.append(all.as_str());
        r
    }

    /// A copy of this configuration.
    pub fn duplicate(&self) -> (r: ApiConfig)
        ensures
            r.current_api == self.current_api,
            r.apis@ == self.apis@,
    {
        let mut apis: Vec<BrokerApi> = Vec::new();
        let mut i: usize = 0;
        while i < self.apis.len()
            invariant
                i <= self.apis@.len(),
                apis@ == self.apis@.take(i as int),
            decreases self.apis@.len() - i,
        {
            apis.push(self.apis[i].duplicate());
            proof {
                assert(self.apis@.take(i + 1) =~= self.apis@.take(i as int).push(self.apis@[i as int]));
            }
            i = i + 1;
        }
        proof {
            assert(self.apis@.take(i as int) =~= self.apis@);
        }
        ApiConfig { current_api: self.current_api.clone(), apis }
    }

    /// The ids of the accounts, in order.
    pub open spec fn ids(&self) -> Seq<Seq<char>> {
        self.apis@.map_values(|a: BrokerApi| a.spec_id())
    }

    /// Whether an account has this id.
    pub fn contains_id(&self, id: &str) -> (r: bool)
        ensures
            r == self.ids().contains(id@),
    {
        let mut i: usize = 0;
        while i < self.apis.len()
            invariant
                i <= self.apis@.len(),
                forall|k: int| 0 <= k < i ==> self.apis@[k].spec_id() != id@,
            decreases self.apis@.len() - i,
        {
            if self.apis[i].id.eq(&id.to_owned()) {
                assert(self.ids()[i as int] == id@);
                return true;
            }
            i = i + 1;
        }
        proof {
            if self.ids().contains(id@) {
                let k = choose|k: int| 0 <= k < self.ids().len() && self.ids()[k] == id@;
                assert(self.apis@[k].spec_id() == id@);
            }
        }
        false
    }
}

/// The settings as they are kept in the configuration file.
#[derive(Clone, Debug, PartialEq)]
pub struct ConfigFile {
    pub current_algorithm: Option<String>,
    pub api_config: Option<ApiConfig>,
    pub save_config: SaveConfig,
}

impl ConfigFile {
    /// No account, no current algorithm, the default save behaviour.
    pub fn default() -> (r: Self)
        ensures
            r.current_algorithm is None,
            r.api_config is None,
            r.save_config.order && !r.save_config.price,
    {
        ConfigFile { current_algorithm: None, api_config: None, save_config: SaveConfig::default() }
    }

    /// What of `settings` is kept in the file; the loaded algorithms are not.
    pub fn from_settings<A>(settings: Settings<A>) -> (r: Self)
        ensures
            r == settings.spec_config_file(),
    {
        ConfigFile {
            current_algorithm: settings.current_algorithm,
            api_config: settings.api_config,
            save_config: settings.save_config,
        }
    }
}

/// Whether an account with this id is among those configured.
pub open spec fn id_taken_in(c: Option<ApiConfig>, id: Seq<char>) -> bool {
    match c {
        Some(c) => c.ids().contains(id),
        None => false,
    }
}

/// The settings of a running host, with its loaded algorithms.
pub struct Settings<A> {
    pub api_config: Option<ApiConfig>,
    pub save_config: SaveConfig,
    current_algorithm: Option<String>,
    algorithms: Algorithms<A>,
}

impl<A> Settings<A> {
    pub closed spec fn spec_current_algorithm(&self) -> Option<String> {
        self.current_algorithm
    }

    pub closed spec fn spec_algorithms(&self) -> Algorithms<A> {
        self.algorithms
    }

    pub open spec fn wf(&self) -> bool {
        self.spec_algorithms().wf()
    }

    /// The part of the settings that the configuration file keeps.
    pub open spec fn spec_config_file(&self) -> ConfigFile {
        ConfigFile {
            current_algorithm: self.spec_current_algorithm(),
            api_config: self.spec_api_config(),
            save_config: self.spec_save_config(),
        }
    }

    /// Whether an account with this id is configured.
    pub open spec fn id_taken(&self, id: Seq<char>) -> bool {
        id_taken_in(self.spec_api_config(), id)
    }

    pub closed spec fn spec_api_config(&self) -> Option<ApiConfig> {
        self.api_config
    }

    pub closed spec fn spec_save_config(&self) -> SaveConfig {
        self.save_config
    }

    /// The settings a configuration file describes, with no algorithm loaded.
    pub fn from_config(config_file: ConfigFile) -> (r: Self)
        ensures
            r.wf(),
            r.spec_config_file() == config_file,
            r.spec_algorithms().keys().len() == 0,
    {
        Settings {
            api_config: config_file.api_config,
            save_config: config_file.save_config,
            current_algorithm: config_file.current_algorithm,
            algorithms: Algorithms::empty(),
        }
    }

    pub fn current_algorithm(&self) -> (r: &Option<String>)
        ensures
            *r == self.spec_current_algorithm(),
    {
        &self.current_algorithm
    }

    pub fn api_config(&self) -> (r: &Option<ApiConfig>)
        ensures
            *r == self.spec_api_config(),
    {
        &self.api_config
    }

    /// The accounts, to change them; nothing else changes.
    pub fn api_config_mut(&mut self) -> (r: &mut Option<ApiConfig>)
        ensures
            *r == old(self).spec_api_config(),
            final(self).spec_api_config() == *final(r),
            final(self).spec_save_config() == old(self).spec_save_config(),
            final(self).spec_current_algorithm() == old(self).spec_current_algorithm(),
            final(self).spec_algorithms() == old(self).spec_algorithms(),
    {
        &mut self.api_config
    }

    pub fn save_config(&self) -> (r: SaveConfig)
        ensures
            r == self.spec_save_config(),
    {
        self.save_config
    }

    /// Replaces what is saved while trading; nothing else changes.
    pub fn set_save_config(&mut self, save_config: SaveConfig)
        ensures
            final(self).spec_save_config() == save_config,
            final(self).spec_api_config() == old(self).spec_api_config(),
            final(self).spec_current_algorithm() == old(self).spec_current_algorithm(),
            final(self).spec_algorithms() == old(self).spec_algorithms(),
    {
        self.save_config = save_config;
    }

    pub fn algorithms(&self) -> (r: &Algorithms<A>)
        ensures
            *r == self.spec_algorithms(),
    {
        &self.algorithms
    }

    pub fn algorithms_mut(&mut self) -> (r: &mut Algorithms<A>)
        ensures
            *r == old(self).spec_algorithms(),
            final(self).spec_algorithms() == *final(r),
            final(self).spec_config_file() == old(self).spec_config_file(),
    {
        &mut self.algorithms
    }

    /// Replaces the loaded algorithms.
    pub fn set_algorithms(&mut self, algorithms: Algorithms<A>)
        ensures
            final(self).spec_algorithms() == algorithms,
            final(self).spec_config_file() == old(self).spec_config_file(),
    {
        self.algorithms = algorithms;
    }

    /// All settings as they are shown to the user: accounts, current
    /// algorithm, loaded algorithms and save behaviour, separated by blank
    /// lines.
    pub fn describe(&self) -> (r: String)
        requires
            self.wf(),
        ensures
            r@ == "\n"@ + match self.spec_api_config() {
                Some(c) => api_config_text(c),
                None => "APIS: None"@,
            } + "\n\n"@ + match self.spec_current_algorithm() {
                Some(n) => "CURRENT ALGORITHM: "@ + n@,
                None => "CURRENT ALGORITHM: None"@,
            } + "\n\n"@ + "ALGORITHMS:\t"@ + listing(self.spec_algorithms().values()) + "\n\n"@
                + "SAVE:\n\torder: "@ + SaveConfig::spec_on_off(self.spec_save_config().order)
                + "\n\tprice: "@ + SaveConfig::spec_on_off(self.spec_save_config().price) + "\n"@,
    {
        let api = match &self.api_config {
            Some(c) => c.describe(),
            None => String::from_str("APIS: None"),
        };
        let current = match &self.current_algorithm {
            Some(n) => {
                let mut t = String::from_str("CURRENT ALGORITHM: ");
                t.append(n.as_str());
                t
            },
            None => String::from_str("CURRENT ALGORITHM: None"),
        };
        let algorithms = self.algorithms.describe();
        let save = self.save_config.describe();
        let mut r = String::from_str("\n");
        r.append(api.as_str());
        r.append("\n\n");
        r.append(current.as_str());
        r.append("\n\n");
        r.append(algorithms.as_str());
        r.append("\n\n");
        r.append(save.as_str());
        r.append("\n");
        r
    }

    /// Makes `name` the current algorithm, if an algorithm is loaded under
    /// it; otherwise nothing changes.
    pub fn set_current_algorithm(&mut self, name: String) -> (r: Result<(), ()>)
        requires
            old(self).wf(),
        ensures
            final(self).wf(),
            final(self).spec_algorithms() == old(self).spec_algorithms(),
            final(self).spec_config_file().api_config == old(self).spec_config_file().api_config,
            final(self).spec_config_file().save_config == old(self).spec_config_file().save_config,
            r is Ok <==> old(self).spec_algorithms().has(name@),
            r is Ok ==> final(self).spec_current_algorithm() == Some(name),
            r is Err ==> final(self).spec_current_algorithm() == old(self).spec_current_algorithm(),
    {
        if self.algorithms.contains(name.as_str()) {
            self.current_algorithm = Some(name);
            Ok(())
        } else {
            Err(())
        }
    }
}

} // verus!
