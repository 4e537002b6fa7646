//! Who may use the bot: a global rule, then a rule per chat.

use vstd::prelude::*;
use crate::text::{
    chars_of, push_signed_decimal, same_chars, signed_decimal, split_chars,
    split_seq, trim_chars, trimmed, views,
};

verus! {

/// One entry of an explicit list of users: an id written as text or as a number.
#[derive(Debug, Clone, PartialEq, Eq)]
pub enum UsersArrayConfig {
    StringUser(String),
    IntegerUser(i64),
}

/// An allow-rule: one numeric user id, a text (`*` for anyone, one id, or a
/// comma-separated list of ids), or an explicit list of ids.
#[derive(Debug, Clone, PartialEq, Eq)]
pub enum UsersConfig {
    SingleUser(i64),
    StringUsers(String),
    ArrayUsers(Vec<UsersArrayConfig>),
}

/// The global rule and the rules of single chats, each chat listed once.
#[derive(Debug)]
pub struct PermissionsConfig {
    allow_all: UsersConfig,
    chats: Vec<(String, UsersConfig)>,
}

/// The user id that a list entry stands for.
pub open spec fn entry_id(e: UsersArrayConfig) -> Seq<char> {
    match e {
        UsersArrayConfig::StringUser(s) => trimmed(s@),
        UsersArrayConfig::IntegerUser(i) => signed_decimal(i as int),
    }
}

/// The ids of a comma-separated list, each without surrounding white space.
pub open spec fn listed_ids(s: Seq<char>) -> Seq<Seq<char>> {
    split_seq(s, seq![',']).map_values(|x: Seq<char>| trimmed(x))
}

/// The user ids that a list stands for.
pub open spec fn entry_ids(v: Seq<UsersArrayConfig>) -> Seq<Seq<char>> {
    v.map_values(|e: UsersArrayConfig| entry_id(e))
}

/// Whether a rule lets `user` in.
pub open spec fn rule_grants(cfg: UsersConfig, user: Seq<char>) -> bool {
    match cfg {
        UsersConfig::SingleUser(u) => signed_decimal(u as int) == user,
        UsersConfig::StringUsers(s) => s@ == seq!['*'] || s@ == user || (s@.contains(',')
            && listed_ids(s@).contains(user)),
        UsersConfig::ArrayUsers(v) => entry_ids(v@).contains(user),
    }
}

/// The rule of the first entry for `chat`.
pub open spec fn lookup(entries: Seq<(String, UsersConfig)>, chat: Seq<char>) -> Option<UsersConfig>
    decreases entries.len(),
{
    if entries.len() == 0 {
        None
    } else if entries[0].0@ == chat {
        Some(entries[0].1)
    } else {
        lookup(entries.drop_first(), chat)
    }
}

proof fn lemma_lookup_suffix(entries: Seq<(String, UsersConfig)>, chat: Seq<char>, i: int)
    requires
        0 <= i < entries.len(),
    ensures
        lookup(entries.subrange(i, entries.len() as int), chat) == (if entries[i].0@ == chat {
            Some(entries[i].1)
        } else {
            lookup(entries.subrange(i + 1, entries.len() as int), chat)
        }),
{
    let t = entries.subrange(i, entries.len() as int);
    assert(t.drop_first() =~= entries.subrange(i + 1, entries.len() as int));
}

proof fn lemma_lookup_absent(entries: Seq<(String, UsersConfig)>, chat: Seq<char>)
    requires
        forall|k: int| 0 <= k < entries.len() ==> (#[trigger] entries[k]).0@ != chat,
    ensures
        lookup(entries, chat) is None,
    decreases entries.len(),
{
    if entries.len() > 0 {
        assert forall|k: int| 0 <= k < entries.drop_first().len() implies (
        #[trigger] entries.drop_first()[k]).0@ != chat by {
            assert(entries.drop_first()[k] == entries[k + 1]);
        }
        lemma_lookup_absent(entries.drop_first(), chat);
    }
}

proof fn lemma_lookup_push(entries: Seq<(String, UsersConfig)>, e: (String, UsersConfig), chat: Seq<char>)
    ensures
        lookup(entries.push(e), chat) == (if lookup(entries, chat) is Some {
            lookup(entries, chat)
        } else if e.0@ == chat {
            Some(e.1)
        } else {
            None
        }),
    decreases entries.len(),
{
    if entries.len() > 0 {
        assert(entries.push(e).drop_first() =~= entries.drop_first().push(e));
        assert(entries.push(e)[0] == entries[0]);
        lemma_lookup_push(entries.drop_first(), e, chat);
    } else {
        assert(entries.push(e).drop_first() =~= Seq::<(String, UsersConfig)>::empty());
        assert(lookup(Seq::<(String, UsersConfig)>::empty(), chat) is None);
        assert(entries.push(e)[0] == e);
    }
}

proof fn lemma_lookup_update(entries: Seq<(String, UsersConfig)>, i: int, v: UsersConfig, chat: Seq<char>)
    requires
        0 <= i < entries.len(),
        forall|k: int| 0 <= k < i ==> (#[trigger] entries[k]).0@ != entries[i].0@,
    ensures
        lookup(entries.update(i, (entries[i].0, v)), chat) == (if chat == entries[i].0@ {
            Some(v)
        } else {
            lookup(entries, chat)
        }),
    decreases entries.len(),
{
    if i > 0 {
        let d = entries.drop_first();
        assert(entries.update(i, (entries[i].0, v)).drop_first() =~= d.update(i - 1, (d[i - 1].0, v)));
        assert forall|k: int| 0 <= k < i - 1 implies (#[trigger] d[k]).0@ != d[i - 1].0@ by {
            assert(d[k] == entries[k + 1]);
        }
        lemma_lookup_update(d, i - 1, v, chat);
        assert(entries[0].0@ != entries[i].0@);
        assert(entries.update(i, (entries[i].0, v))[0] == entries[0]);
    } else {
        assert(entries.update(i, (entries[i].0, v)).drop_first() =~= entries.drop_first());
    }
}

/// Keys of the chat entries occur once each.
pub open spec fn keys_unique(entries: Seq<(String, UsersConfig)>) -> bool {
    forall|a: int, b: int|
        0 <= a < entries.len() && 0 <= b < entries.len() && a != b ==> (#[trigger] entries[a]).0@
            != (#[trigger] entries[b]).0@
}

/// Whether a list of ids holds `user`.
fn ids_contain(ids: &Vec<Vec<char>>, user: &Vec<char>) -> (r: bool)
    ensures
        r == views(ids@).contains(user@),
{
    let mut i: usize = 0;
    while i < ids.len()
        invariant
            i <= ids.len(),
            forall|k: int| 0 <= k < i ==> views(ids@)[k] != user@,
        decreases ids.len() - i,
    {
        if same_chars(&ids[i], user) {
            assert(views(ids@)[i as int] == user@);
            return true;
        }
        i = i + 1;
    }
    false
}

/// Whether `rule` lets `user` in.
pub fn process_users_config(cfg: &UsersConfig, user: &String) -> (r: bool)
    ensures
        r == rule_grants(*cfg, user@),
{
    let uc = chars_of(user.as_str());
    match cfg {
        UsersConfig::SingleUser(u) => {
            let mut d: Vec<char> = Vec::new();
            push_signed_decimal(&mut d, *u);
            assert(d@ =~= signed_decimal(*u as int));
            same_chars(&d, &uc)
        },
        UsersConfig::StringUsers(users) => {
            let sc = chars_of(users.as_str());
            if sc.len() == 1 && sc[0] == '*' {
                assert(sc@ =~= seq!['*']);
                return true;
            }
            assert(sc@ != seq!['*']) by {
                if sc@ == seq!['*'] {
                    assert(sc@.len() == 1 && sc@[0] == '*');
                }
            }
            if same_chars(&sc, &uc) {
                return true;
            }
            let mut has_comma = false;
            let mut i: usize = 0;
            while i < sc.len()
                invariant
                    i <= sc.len(),
                    has_comma == (exists|k: int| 0 <= k < i && sc@[k] == ','),
                decreases sc.len() - i,
            {
                if sc[i] == ',' {
                    has_comma = true;
                }
                i = i + 1;
            }
            if !has_comma {
                assert(!sc@.contains(','));
                return false;
            }
            let sep: Vec<char> = vec![','];
            assert(sep@ =~= seq![',']);
            let pieces = split_chars(&sc, &sep);
            let mut ids: Vec<Vec<char>> = Vec::new();
            let mut k: usize = 0;
            while k < pieces.len()
                invariant
                    k <= pieces.len(),
                    views(pieces@) == split_seq(sc@, seq![',']),
                    views(ids@) == listed_ids(sc@).subrange(0, k as int),
                decreases pieces.len() - k,
            {
                let t = trim_chars(&pieces[k]);
                assert(listed_ids(sc@)[k as int] == trimmed(views(pieces@)[k as int]));
                let ghost before = ids@;
                ids.push(t);
                assert(views(ids@) =~= views(before).push(t@));
                k = k + 1;
                assert(views(ids@) =~= listed_ids(sc@).subrange(0, k as int));
            }
            assert(listed_ids(sc@).subrange(0, k as int) =~= listed_ids(sc@));
            ids_contain(&ids, &uc)
        },
        UsersConfig::ArrayUsers(entries) => {
            let mut i: usize = 0;
            while i < entries.len()
                invariant
                    i <= entries.len(),
                    uc@ == user@,
                    *cfg == UsersConfig::ArrayUsers(*entries),
                    forall|k: int| 0 <= k < i ==> entry_ids(entries@)[k] != uc@,
                decreases entries.len() - i,
            {
                let id: Vec<char> = match &entries[i] {
                    UsersArrayConfig::StringUser(s) => {
                        let c = chars_of(s.as_str());
                        trim_chars(&c)
                    },
                    UsersArrayConfig::IntegerUser(n) => {
                        let mut d: Vec<char> = Vec::new();
                        push_signed_decimal(&mut d, *n);
                        assert(d@ =~= signed_decimal(*n as int));
                        d
                    },
                };
                assert(id@ == entry_id(entries@[i as int]));
                if same_chars(&id, &uc) {
                    assert(entry_ids(entries@)[i as int] == user@);
                    return true;
                }
                i = i + 1;
            }
            false
        },
    }
}

impl PermissionsConfig {
    /// Each chat is listed once.
    pub closed spec fn wf(&self) -> bool {
        keys_unique(self.chats@)
    }

    /// The global rule.
    pub closed spec fn global_rule(&self) -> UsersConfig {
        self.allow_all
    }

    /// The rule of a chat, if it has one.
    pub closed spec fn chat_rule(&self, chat: Seq<char>) -> Option<UsersConfig> {
        lookup(self.chats@, chat)
    }

    /// Whether `user` may use the bot in `chat`: the global rule lets the user in,
    /// or the chat has a rule that does.
    pub open spec fn grants(&self, chat: Seq<char>, user: Seq<char>) -> bool {
        rule_grants(self.global_rule(), user) || (self.chat_rule(chat) matches Some(r) && rule_grants(
            r,
            user,
        ))
    }

    /// A configuration that lets nobody in: an empty global rule and no chat rules.
    pub fn init_empty() -> (r: Self)
        ensures
            r.wf(),
            r.global_rule() matches UsersConfig::StringUsers(s) && s@ == Seq::<char>::empty(),
            forall|c: Seq<char>| (#[trigger] r.chat_rule(c)) is None,
    {
        PermissionsConfig { allow_all: UsersConfig::StringUsers(String::new()), chats: Vec::new() }
    }

    /// A configuration that lets everybody in: the global rule `*` and no chat rules.
    pub fn init_allow_all() -> (r: Self)
        ensures
            r.wf(),
            r.global_rule() matches UsersConfig::StringUsers(s) && s@ == seq!['*'],
            forall|c: Seq<char>| (#[trigger] r.chat_rule(c)) is None,
    {
        let mut star = String::new();
        crate::text::push_char(&mut star, '*');
        assert(star@ =~= seq!['*']);
        PermissionsConfig { allow_all: UsersConfig::StringUsers(star), chats: Vec::new() }
    }

    /// The global rule.
    pub fn allow_all(&self) -> (r: &UsersConfig)
        ensures
            *r == self.global_rule(),
    {
        &self.allow_all
    }

    /// Replaces the global rule.
    pub fn set_allow_all(&mut self, rule: UsersConfig)
        ensures
            final(self).global_rule() == rule,
            forall|c: Seq<char>| #[trigger] final(self).chat_rule(c) == old(self).chat_rule(c),
            old(self).wf() ==> final(self).wf(),
    {
        self.allow_all = rule;
    }

    /// The number of chats that have a rule of their own.
    pub fn chat_count(&self) -> (r: usize)
        ensures
            r == 0 ==> forall|c: Seq<char>| (#[trigger] self.chat_rule(c)) is None,
    {
        proof {
            if self.chats@.len() == 0 {
                assert forall|c: Seq<char>| (#[trigger] self.chat_rule(c)) is None by {}
            }
        }
        self.chats.len()
    }

    /// Whether no chat has a rule of its own.
    pub fn chats_is_empty(&self) -> (r: bool)
        ensures
            r ==> forall|c: Seq<char>| (#[trigger] self.chat_rule(c)) is None,
    {
        self.chats.len() == 0
    }

    /// Gives `chat` the rule `rule`, replacing the rule it had.
    pub fn insert_chat(&mut self, chat: String, rule: UsersConfig)
        requires
            old(self).wf(),
        ensures
            final(self).wf(),
            final(self).global_rule() == old(self).global_rule(),
            forall|c: Seq<char>| #[trigger] final(self).chat_rule(c) == (if c == chat@ {
                Some(rule)
            } else {
                old(self).chat_rule(c)
            }),
    {
        let mut i: usize = 0;
        while i < self.chats.len()
            invariant
                i <= self.chats.len(),
                self.chats@ == old(self).chats@,
                keys_unique(self.chats@),
                self.allow_all == old(self).allow_all,
                forall|k: int| 0 <= k < i ==> (#[trigger] self.chats@[k]).0@ != chat@,
            decreases self.chats.len() - i,
        {
            if self.chats[i].0 == chat {
                let ghost before = self.chats@;
                let key = self.chats[i].0.clone();
                self.chats.set(i, (key, rule));
                proof {
                    assert(self.chats@ == before.update(i as int, (before[i as int].0, rule)));
                    assert forall|c: Seq<char>| #[trigger] lookup(self.chats@, c) == (if c == chat@ {
                        Some(rule)
                    } else {
                        lookup(before, c)
                    }) by {
                        lemma_lookup_update(before, i as int, rule, c);
                    }
                    assert(keys_unique(self.chats@)) by {
                        assert forall|a: int, b: int|
                            0 <= a < self.chats@.len() && 0 <= b < self.chats@.len() && a != b
                                implies (#[trigger] self.chats@[a]).0@ != (
                        #[trigger] self.chats@[b]).0@ by {
                            assert(before[a].0@ != before[b].0@);
                        }
                    }
                }
                return;
            }
            i = i + 1;
        }
        let ghost before = self.chats@;
        self.chats.push((chat, rule));
        proof {
            lemma_lookup_absent(before, chat@);
            assert forall|c: Seq<char>| #[trigger] lookup(self.chats@, c) == (if c == chat@ {
                Some(rule)
            } else {
                lookup(before, c)
            }) by {
                lemma_lookup_push(before, (chat, rule), c);
                if c != chat@ && lookup(before, c) is Some {
                }
            }
            assert(keys_unique(self.chats@)) by {
                assert forall|a: int, b: int|
                    0 <= a < self.chats@.len() && 0 <= b < self.chats@.len() && a != b implies (
                #[trigger] self.chats@[a]).0@ != (#[trigger] self.chats@[b]).0@ by {
                    if a < before.len() && b < before.len() {
                        assert(before[a].0@ != before[b].0@);
                    } else if a < before.len() {
                        assert(before[a].0@ != chat@);
                    } else {
                        assert(before[b].0@ != chat@);
                    }
                }
            }
        }
    }

    /// The chats that have a rule of their own, each with its rule, each chat once.
    pub fn chats(&self) -> (r: &Vec<(String, UsersConfig)>)
        ensures
            keys_unique(r@) == self.wf(),
            forall|c: Seq<char>| #[trigger] lookup(r@, c) == self.chat_rule(c),
    {
        &self.chats
    }

    /// The rule of `chat`, if it has one.
    pub fn get_chat(&self, chat: &String) -> (r: Option<&UsersConfig>)
        ensures
            r matches Some(x) ==> self.chat_rule(chat@) == Some(*x),
            r is None ==> self.chat_rule(chat@) is None,
    {
        let mut i: usize = 0;
        assert(self.chats@.subrange(0, self.chats@.len() as int) =~= self.chats@);
        while i < self.chats.len()
            invariant
                i <= self.chats.len(),
                lookup(self.chats@, chat@) == lookup(
                    self.chats@.subrange(i as int, self.chats@.len() as int),
                    chat@,
                ),
            decreases self.chats.len() - i,
        {
            proof {
                lemma_lookup_suffix(self.chats@, chat@, i as int);
            }
            if self.chats[i].0 == *chat {
                return Some(&self.chats[i].1);
            }
            i = i + 1;
        }
        None
    }

    /// Whether `user_id` may use the bot in `chat_id`: the global rule is checked
    /// first, then the chat's own rule; a chat without a rule lets nobody in.
    pub fn user_has_access(&self, chat_id: String, user_id: &String) -> (r: bool)
        ensures
            r == self.grants(chat_id@, user_id@),
    {
        if process_users_config(&self.allow_all, user_id) {
            return true;
        }
        match self.get_chat(&chat_id) {
            Some(rule) => process_users_config(rule, user_id),
            None => false,
        }
    }
}

} // verus!

verus! {

/// A global `*` rule lets every user in, in every chat.
pub proof fn lemma_wildcard_grants_everyone(cfg: PermissionsConfig, chat: Seq<char>, user: Seq<char>)
    requires
        cfg.global_rule() matches UsersConfig::StringUsers(s) && s@ == seq!['*'],
    ensures
        cfg.grants(chat, user),
{
}

/// Where the global rule does not let a user in and the chat has no rule of its
/// own, the user is denied.
pub proof fn lemma_absent_rule_denies(cfg: PermissionsConfig, chat: Seq<char>, user: Seq<char>)
    requires
        cfg.chat_rule(chat) is None,
        !rule_grants(cfg.global_rule(), user),
    ensures
        !cfg.grants(chat, user),
{
}

/// A chat rule that lists a user lets that user in, in that chat.
pub proof fn lemma_listed_user_granted(
    cfg: PermissionsConfig,
    chat: Seq<char>,
    list: Vec<UsersArrayConfig>,
    k: int,
)
    requires
        cfg.chat_rule(chat) == Some(UsersConfig::ArrayUsers(list)),
        0 <= k < list@.len(),
    ensures
        cfg.grants(chat, entry_id(list@[k])),
{
    assert(entry_ids(list@)[k] == entry_id(list@[k]));
}

} // verus!
