//! The profiles of the agents: named configurations of each, built in or set by
//! the user.

pub mod configs;
pub mod laws;
pub mod setting_laws;

use vstd::prelude::*;
use vstd::string::*;

use crate::agents;
use crate::agents::{AgentView, BaseCodingAgent, CodingAgent};
use crate::collections;
use crate::collections::AssocMap;
use crate::text;

pub use configs::ExecutorConfigs;

verus! {

/// A way to write a name of several words.
#[derive(Debug, Clone, Copy, PartialEq, Eq, Structural)]
pub enum LetterCase {
    Snake,
    ScreamingSnake,
}

/// A text as `convert_case` writes it in another letter case.
pub uninterp spec fn in_case(text: Seq<char>, case: LetterCase) -> Seq<char>;

pub open spec fn is_lower(c: char) -> bool {
    'a' <= c <= 'z'
}

pub open spec fn is_upper(c: char) -> bool {
    'A' <= c <= 'Z'
}

/// Whether a character stands between two words.
pub open spec fn is_separator(c: char) -> bool {
    c == '_' || c == '-' || c == ' '
}

/// Whether a text is made of words of ASCII letters with single separators
/// between them, and no letter case tells two words apart: no uppercase letter
/// follows a lowercase one, and no lowercase letter follows two uppercase ones.
pub open spec fn is_plain_words(text: Seq<char>) -> bool {
    &&& forall|i: int|
        0 <= i < text.len() ==> is_lower(#[trigger] text[i]) || is_upper(text[i]) || (
        is_separator(text[i]) && 0 < i < text.len() - 1 && !is_separator(text[i - 1]))
    &&& forall|i: int, j: int|
        0 <= i < text.len() && j == i + 1 && j < text.len() ==> !(is_lower(#[trigger] text[i])
            && is_upper(#[trigger] text[j]))
    &&& forall|i: int, j: int, k: int|
        0 <= i < text.len() && j == i + 1 && k == j + 1 && k < text.len() ==> !(is_upper(
            #[trigger] text[i],
        ) && is_upper(#[trigger] text[j]) && is_lower(#[trigger] text[k]))
}

/// A character of words that are joined by underscores, in a letter case.
pub open spec fn cased(c: char, case: LetterCase) -> char {
    if is_separator(c) {
        '_'
    } else {
        match case {
            LetterCase::Snake => text::lower_char(c),
            LetterCase::ScreamingSnake => text::upper_char(c),
        }
    }
}

/// Plain words in a letter case.
pub open spec fn words_in_case(text: Seq<char>, case: LetterCase) -> Seq<char> {
    text.map_values(|c: char| cased(c, case))
}

/// `convert_case::Casing::to_case` splits a text into words and writes them in
/// another letter case. What comes out is a function of the text and the case
/// alone. Words split at underscores, hyphens and spaces, where a lowercase
/// letter meets an uppercase one, before the last of several uppercase letters
/// that a lowercase one follows, and at digits; so plain words stay the words
/// that they are.
#[verifier::external_body]
fn to_case(text: &str, case: LetterCase) -> (res: String)
    ensures
        res@ == in_case(text@, case),
        is_plain_words(text@) ==> res@ == words_in_case(text@, case),
{
    let text = text.to_string();
    match case {
        LetterCase::Snake => convert_case::Casing::to_case(&text, convert_case::Case::Snake),
        LetterCase::ScreamingSnake => {
            convert_case::Casing::to_case(&text, convert_case::Case::ScreamingSnake)
        },
    }
}

/// The canonical form of the name of a configuration: its words in uppercase,
/// with underscores between them.
pub open spec fn canonical_key(raw: Seq<char>) -> Seq<char> {
    if text::ascii_upper(raw) == "DEFAULT"@ {
        "DEFAULT"@
    } else if is_plain_words(raw) {
        words_in_case(raw, LetterCase::ScreamingSnake)
    } else {
        in_case(in_case(raw, LetterCase::Snake), LetterCase::ScreamingSnake)
    }
}

/// The canonical form of the name of a configuration.
pub fn canonical_variant_key(raw: &str) -> (res: String)
    ensures
        res@ == canonical_key(raw@),
        is_plain_words(raw@) ==> res@ == words_in_case(raw@, LetterCase::ScreamingSnake),
{
    let upper = text::to_ascii_uppercase(raw);
    if *upper.as_str() == *"DEFAULT" {
        proof {
            lemma_default_in_case(raw@);
        }
        return "DEFAULT".to_owned();
    }
    let snake = to_case(raw, LetterCase::Snake);
    proof {
        if is_plain_words(raw@) {
            lemma_snake_words(raw@);
        }
    }
    to_case(snake.as_str(), LetterCase::ScreamingSnake)
}

proof fn lemma_default_in_case(raw: Seq<char>)
    requires
        text::ascii_upper(raw) == "DEFAULT"@,
    ensures
        words_in_case(raw, LetterCase::ScreamingSnake) == "DEFAULT"@,
{
    reveal_strlit("DEFAULT");
    let default_name = "DEFAULT"@;
    assert(raw.len() == text::ascii_upper(raw).len());
    assert(default_name.len() == 7);
    assert forall|i: int| 0 <= i < raw.len() implies cased(
        #[trigger] raw[i],
        LetterCase::ScreamingSnake,
    ) == default_name[i] by {
        assert(text::upper_char(raw[i]) == default_name[i]) by {
            assert(text::ascii_upper(raw)[i] == default_name[i]);
        }
        assert(is_upper(default_name[i])) by {
            assert(i == 0 || i == 1 || i == 2 || i == 3 || i == 4 || i == 5 || i == 6);
        }
    }
    assert(words_in_case(raw, LetterCase::ScreamingSnake) =~= default_name);
}

proof fn lemma_snake_words(raw: Seq<char>)
    requires
        is_plain_words(raw),
    ensures
        is_plain_words(words_in_case(raw, LetterCase::Snake)),
        words_in_case(words_in_case(raw, LetterCase::Snake), LetterCase::ScreamingSnake)
            == words_in_case(raw, LetterCase::ScreamingSnake),
{
    let snake = words_in_case(raw, LetterCase::Snake);
    assert forall|i: int| 0 <= i < raw.len() implies {
        &&& is_lower(#[trigger] snake[i]) || snake[i] == '_'
        &&& is_separator(snake[i]) == is_separator(raw[i])
        &&& cased(snake[i], LetterCase::ScreamingSnake) == cased(
            raw[i],
            LetterCase::ScreamingSnake,
        )
    } by {
        let c = raw[i];
        assert(is_lower(c) || is_upper(c) || is_separator(c));
    }
    assert(words_in_case(snake, LetterCase::ScreamingSnake) =~= words_in_case(
        raw,
        LetterCase::ScreamingSnake,
    ));
    assert forall|i: int| 0 <= i < snake.len() implies is_lower(#[trigger] snake[i]) || is_upper(
        snake[i],
    ) || (is_separator(snake[i]) && 0 < i < snake.len() - 1 && !is_separator(snake[i - 1])) by {
        let c = raw[i];
        assert(is_lower(c) || is_upper(c) || is_separator(c));
    }
}

/// The canonical form of plain words is canonical itself.
pub proof fn law_plain_words_are_settled(raw: Seq<char>)
    requires
        is_plain_words(raw),
    ensures
        canonical_key(canonical_key(raw)) == canonical_key(raw),
{
    if text::ascii_upper(raw) == "DEFAULT"@ {
        law_default_is_canonical();
    } else {
        let name = words_in_case(raw, LetterCase::ScreamingSnake);
        assert forall|i: int| 0 <= i < name.len() implies (is_upper(#[trigger] name[i]) || (
        name[i] == '_' && 0 < i < name.len() - 1 && !is_separator(name[i - 1]))) by {
            let c = raw[i];
            assert(is_lower(c) || is_upper(c) || is_separator(c));
            if i > 0 {
                assert(is_lower(raw[i - 1]) || is_upper(raw[i - 1]) || is_separator(raw[i - 1]));
            }
        }
        assert(words_in_case(name, LetterCase::ScreamingSnake) =~= name);
        assert(text::ascii_upper(name) =~= name);
    }
}

/// The name of the default configuration is canonical.
pub proof fn law_default_is_canonical()
    ensures
        canonical_key("DEFAULT"@) == "DEFAULT"@,
{
    reveal_strlit("DEFAULT");
    assert(text::ascii_upper("DEFAULT"@) =~= "DEFAULT"@);
}

/// Why profiles cannot be used or stored.
#[derive(Debug)]
pub enum ProfileError {
    CannotDeleteExecutor { executor: BaseCodingAgent },
    CannotDeleteBuiltInConfig { executor: BaseCodingAgent, variant: String },
    Validation(String),
    Io(String),
    Serde(String),
    NoAvailableExecutorProfile,
}

impl ProfileError {
    /// What the error says.
    pub open spec fn says(self) -> Seq<char> {
        match self {
            ProfileError::CannotDeleteExecutor { executor } => "Built-in executor '"@
                + executor.name() + "' cannot be deleted"@,
            ProfileError::CannotDeleteBuiltInConfig { executor, variant } => {
                "Built-in configuration '"@ + executor.name() + ":"@ + variant@
                    + "' cannot be deleted"@
            },
            ProfileError::Validation(problem) => "Validation error: "@ + problem@,
            ProfileError::Io(problem) => problem@,
            ProfileError::Serde(problem) => problem@,
            ProfileError::NoAvailableExecutorProfile => "No available executor profile"@,
        }
    }

    /// What the error says.
    pub fn message(&self) -> (res: String)
        ensures
            res@ == self.says(),
    {
        match self {
            ProfileError::CannotDeleteExecutor { executor } => text::concat3(
                "Built-in executor '",
                executor.as_str(),
                "' cannot be deleted",
            ),
            ProfileError::CannotDeleteBuiltInConfig { executor, variant } => {
                let start = text::concat3("Built-in configuration '", executor.as_str(), ":");
                text::concat3(start.as_str(), variant.as_str(), "' cannot be deleted")
            },
            ProfileError::Validation(problem) => {
                text::concat("Validation error: ", problem.as_str())
            },
            ProfileError::Io(problem) => problem.clone(),
            ProfileError::Serde(problem) => problem.clone(),
            ProfileError::NoAvailableExecutorProfile => "No available executor profile".to_owned(),
        }
    }
}

/// Names a configuration of an agent: the default one, or a variant.
#[derive(Debug)]
pub struct ExecutorProfileId {
    pub executor: BaseCodingAgent,
    pub variant: Option<String>,
}

#[verifier::ext_equal]
pub struct ProfileIdView {
    pub executor: BaseCodingAgent,
    pub variant: Option<Seq<char>>,
}

impl View for ExecutorProfileId {
    type V = ProfileIdView;

    open spec fn view(&self) -> ProfileIdView {
        ProfileIdView { executor: self.executor, variant: self.variant.deep_view() }
    }
}

impl ProfileIdView {
    /// The id as a text.
    pub open spec fn shown(self) -> Seq<char> {
        match self.variant {
            Some(variant) => self.executor.name() + ":"@ + variant,
            None => self.executor.name(),
        }
    }

    /// The canonical name of the configuration.
    pub open spec fn key(self) -> Seq<char> {
        match self.variant {
            Some(variant) => canonical_key(variant),
            None => "DEFAULT"@,
        }
    }
}

/// Different profiles are written differently, so each has a key of its own.
pub proof fn law_profiles_have_keys_of_their_own(a: ProfileIdView, b: ProfileIdView)
    requires
        a != b,
    ensures
        a.shown() != b.shown(),
{
    reveal_strlit(":");
    let left = a.executor.name();
    let right = b.executor.name();
    agents::law_names_have_no_colon(a.executor);
    agents::law_names_have_no_colon(b.executor);
    agents::law_name_stands_for_its_agent(a.executor);
    agents::law_name_stands_for_its_agent(b.executor);
    if a.shown() == b.shown() {
        let whole = a.shown();
        assert(forall|i: int| 0 <= i < left.len() ==> whole[i] == #[trigger] left[i]);
        assert(forall|i: int| 0 <= i < right.len() ==> b.shown()[i] == #[trigger] right[i]);
        if left.len() < right.len() {
            assert(right[left.len() as int] == whole[left.len() as int]);
            assert(right.contains(right[left.len() as int]));
        }
        if right.len() < left.len() {
            assert(left[right.len() as int] == b.shown()[right.len() as int]);
            assert(left.contains(left[right.len() as int]));
        }
        assert(left =~= right);
        match (a.variant, b.variant) {
            (Some(x), Some(y)) => {
                assert(x =~= whole.skip(left.len() as int + 1));
                assert(y =~= b.shown().skip(right.len() as int + 1));
            },
            _ => {},
        }
        assert(a =~= b);
    }
}

/// The name of an agent as it is written today, for one that may be written in
/// kebab case.
pub open spec fn modern_name(raw: Seq<char>) -> Seq<char> {
    text::ascii_upper(text::replaced(raw, '-', '_'))
}

/// Reads the name of an agent, which may be written in kebab case.
pub fn de_base_coding_agent_kebab(raw: &str) -> (res: Result<BaseCodingAgent, String>)
    ensures
        match res {
            Ok(agent) => BaseCodingAgent::named(modern_name(raw@)) == Some(agent),
            Err(message) => BaseCodingAgent::named(modern_name(raw@)) is None && message@
                == "unknown executor '"@ + raw@ + "' (normalized to '"@ + modern_name(raw@)
                + "')"@,
        },
{
    let underscored = text::replace_char(raw, '-', '_');
    let name = text::to_ascii_uppercase(underscored.as_str());
    match BaseCodingAgent::from_name(name.as_str()) {
        Some(agent) => Ok(agent),
        None => {
            let start = text::concat3("unknown executor '", raw, "' (normalized to '");
            Err(text::concat3(start.as_str(), name.as_str(), "')"))
        },
    }
}

impl ExecutorProfileId {
    /// The default configuration of an agent.
    pub fn new(executor: BaseCodingAgent) -> (res: Self)
        ensures
            res@ == (ProfileIdView { executor, variant: None }),
    {
        ExecutorProfileId { executor, variant: None }
    }

    /// A variant of an agent.
    pub fn with_variant(executor: BaseCodingAgent, variant: String) -> (res: Self)
        ensures
            res@ == (ProfileIdView { executor, variant: Some(variant@) }),
    {
        ExecutorProfileId { executor, variant: Some(variant) }
    }

    /// The key under which things are cached for this profile.
    pub fn cache_key(&self) -> (res: String)
        ensures
            res@ == self@.shown(),
    {
        match &self.variant {
            Some(variant) => text::concat3(self.executor.as_str(), ":", variant.as_str()),
            None => self.executor.as_str().to_owned(),
        }
    }

    /// The id as a text.
    pub fn to_string(&self) -> (res: String)
        ensures
            res@ == self@.shown(),
    {
        self.cache_key()
    }

    fn variant_key(&self) -> (res: String)
        ensures
            res@ == self@.key(),
    {
        match &self.variant {
            Some(variant) => canonical_variant_key(variant.as_str()),
            None => "DEFAULT".to_owned(),
        }
    }
}

/// The default configuration of the agent of a profile.
pub fn to_default_variant(id: &ExecutorProfileId) -> (res: ExecutorProfileId)
    ensures
        res@ == (ProfileIdView { executor: id.executor, variant: None }),
{
    ExecutorProfileId { executor: id.executor, variant: None }
}

/// The configurations of an agent, each under its name.
#[derive(Debug)]
pub struct ExecutorConfig {
    pub configurations: AssocMap<String, CodingAgent>,
}

impl View for ExecutorConfig {
    type V = Map<Seq<char>, AgentView>;

    open spec fn view(&self) -> Map<Seq<char>, AgentView> {
        self.configurations@
    }
}

impl Clone for ExecutorConfig {
    fn clone(&self) -> (res: Self)
        ensures
            res@ == self@,
    {
        let mut configurations: AssocMap<String, CodingAgent> = AssocMap::new();
        let ghost keys = self.configurations.keys();
        let mut i: usize = 0;
        while i < self.configurations.len()
            invariant
                i <= keys.len(),
                keys == self.configurations.keys(),
                configurations@.dom() =~= Set::new(|k: Seq<char>| keys.take(i as int).contains(k)),
                forall|k: Seq<char>| #[trigger]
                    configurations@.dom().contains(k) ==> configurations@[k] == self@[k],
            decreases keys.len() - i,
        {
            proof {
                collections::lemma_next_key(keys, i as int);
            }
            let name = self.configurations.key_at(i).clone();
            let agent = self.configurations.value_at(i).clone();
            configurations.insert(name, agent);
            i += 1;
        }
        assert(keys.take(i as int) =~= keys);
        assert(configurations@ =~= self@);
        ExecutorConfig { configurations }
    }
}

impl ExecutorConfig {
    /// The configuration with the given name.
    pub fn get_variant(&self, variant: &str) -> (res: Option<&CodingAgent>)
        ensures
            match res {
                Some(agent) => self@.dom().contains(variant@) && agent@ == self@[variant@],
                None => !self@.dom().contains(variant@),
            },
    {
        self.configurations.get(&variant.to_owned())
    }

    /// The default configuration.
    pub fn get_default(&self) -> (res: Option<&CodingAgent>)
        ensures
            match res {
                Some(agent) => self@.dom().contains("DEFAULT"@) && agent@ == self@["DEFAULT"@],
                None => !self@.dom().contains("DEFAULT"@),
            },
    {
        self.get_variant("DEFAULT")
    }

    /// A default configuration and nothing else.
    pub fn new_with_default(default_config: CodingAgent) -> (res: Self)
        ensures
            res@ == Map::<Seq<char>, AgentView>::empty().insert("DEFAULT"@, default_config@),
    {
        let mut configurations: AssocMap<String, CodingAgent> = AssocMap::new();
        configurations.insert("DEFAULT".to_owned(), default_config);
        ExecutorConfig { configurations }
    }

    /// Sets a variant. The default configuration is none.
    pub fn set_variant(&mut self, variant_name: String, config: CodingAgent) -> (res: Result<
        (),
        &'static str,
    >)
        ensures
            match res {
                Ok(_) => canonical_key(variant_name@) != "DEFAULT"@ && final(self)@
                    == old(self)@.insert(canonical_key(variant_name@), config@),
                Err(message) => canonical_key(variant_name@) == "DEFAULT"@ && final(self)@
                    == old(self)@ && message@
                    == "Cannot override 'DEFAULT' variant using set_variant, use set_default instead"@,
            },
    {
        self.set_canonical_variant(canonical_variant_key(variant_name.as_str()), config)
    }

    /// Sets the variant with a canonical name.
    pub fn set_canonical_variant(&mut self, key: String, config: CodingAgent) -> (res: Result<
        (),
        &'static str,
    >)
        ensures
            match res {
                Ok(_) => key@ != "DEFAULT"@ && final(self)@ == old(self)@.insert(key@, config@),
                Err(message) => key@ == "DEFAULT"@ && final(self)@ == old(self)@ && message@
                    == "Cannot override 'DEFAULT' variant using set_variant, use set_default instead"@,
            },
    {
        if *key.as_str() == *"DEFAULT" {
            return Err(
                "Cannot override 'DEFAULT' variant using set_variant, use set_default instead",
            );
        }
        self.configurations.insert(key, config);
        Ok(())
    }

    /// Puts a configuration under another name, unless there is one with that
    /// name already: then it is dropped.
    pub fn rename(&mut self, from: &String, to: String)
        requires
            from@ != to@,
        ensures
            final(self)@ == renamed(old(self)@, from@, to@),
    {
        let ghost before = self@;
        if let Some(agent) = self.configurations.remove(from) {
            if !self.configurations.contains_key(&to) {
                self.configurations.insert(to, agent);
            }
        } else {
            assert(before.remove(from@) =~= before);
        }
    }

    /// Sets the default configuration.
    pub fn set_default(&mut self, config: CodingAgent)
        ensures
            final(self)@ == old(self)@.insert("DEFAULT"@, config@),
    {
        self.configurations.insert("DEFAULT".to_owned(), config);
    }

    /// The names of all configurations but the default one, each once.
    pub fn variant_names(&self) -> (res: Vec<&String>)
        ensures
            forall|name: Seq<char>| #[trigger]
                names_of(res@).contains(name) <==> self@.dom().contains(name) && name
                    != "DEFAULT"@,
            names_of(res@).no_duplicates(),
    {
        let mut out: Vec<&String> = Vec::new();
        let ghost keys = self.configurations.keys();
        let count = self.configurations.len();
        let mut i: usize = 0;
        assert(names_of(out@) =~= Seq::empty());
        while i < count
            invariant
                i <= count,
                count == keys.len(),
                keys == self.configurations.keys(),
                keys.no_duplicates(),
                forall|name: Seq<char>| #[trigger]
                    names_of(out@).contains(name) <==> keys.take(i as int).contains(name) && name
                        != "DEFAULT"@,
                names_of(out@).no_duplicates(),
            decreases count - i,
        {
            proof {
                collections::lemma_next_key(keys, i as int);
            }
            let name = self.configurations.key_at(i);
            assert(!keys.take(i as int).contains(name@)) by {
                if keys.take(i as int).contains(name@) {
                    let at = keys.take(i as int).index_of(name@);
                    assert(keys[at] == keys[i as int]);
                }
            }
            if *name.as_str() != *"DEFAULT" {
                let ghost before = names_of(out@);
                assert(!before.contains(name@));
                out.push(name);
                assert(names_of(out@) =~= before.push(name@));
                assert(before.push(name@).no_duplicates()) by {
                    assert forall|a: int| 0 <= a < before.len() implies #[trigger] before[a]
                        != name@ by {
                        assert(before.contains(before[a]));
                    }
                }
                assert forall|other: Seq<char>| #[trigger]
                    names_of(out@).contains(other) <==> before.contains(other) || other
                        == name@ by {
                    if before.contains(other) {
                        let at = before.index_of(other);
                        assert(names_of(out@)[at] == other);
                    }
                    assert(names_of(out@)[before.len() as int] == name@);
                }
            }
            i += 1;
        }
        assert(keys.take(i as int) =~= keys);
        out
    }
}

/// The texts of some names.
pub open spec fn names_of(names: Seq<&String>) -> Seq<Seq<char>> {
    names.map_values(|name: &String| name@)
}

/// Configurations of which one is put under another name, unless there is one
/// with that name already.
pub open spec fn renamed(
    profile: Map<Seq<char>, AgentView>,
    from: Seq<char>,
    to: Seq<char>,
) -> Map<Seq<char>, AgentView> {
    if !profile.dom().contains(from) {
        profile
    } else if profile.dom().contains(to) {
        profile.remove(from)
    } else {
        profile.remove(from).insert(to, profile[from])
    }
}

} // verus!
