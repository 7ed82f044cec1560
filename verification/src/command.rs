//! Commands, the triggers that activate them, and the matcher.

use crate::event::{MessageEvent, MessageEventView};
use crate::text::{is_blank, text_is_blank};
use vstd::prelude::*;
use vstd::string::StringExecFns;

verus! {

/// The text that activates [`Command::NewPlanet`].
pub const NEW_PLANET_TRIGGER: &'static str = "!newplanet";

/// A command that the bot recognises.
#[derive(Clone, Copy, Debug, PartialEq, Eq, Hash, Structural)]
pub enum Command {
    /// Announce a newly registered planet.
    NewPlanet,
}

/// A trigger and the command it activates, as contracts see a registry entry.
pub struct Binding {
    /// The text that a message must equal, character for character.
    pub trigger: Seq<char>,
    /// The command that such a message activates.
    pub command: Command,
}

/// Whether entry `i` of `bindings` is the first whose trigger equals `content`.
pub open spec fn is_first_match(bindings: Seq<Binding>, content: Seq<char>, i: int) -> bool {
    &&& 0 <= i < bindings.len()
    &&& bindings[i].trigger == content
    &&& forall|j: int| 0 <= j < i ==> (#[trigger] bindings[j]).trigger != content
}

/// Whether no trigger of `bindings` equals `content`.
pub open spec fn no_match(bindings: Seq<Binding>, content: Seq<char>) -> bool {
    forall|i: int| 0 <= i < bindings.len() ==> (#[trigger] bindings[i]).trigger != content
}

/// The command that `content` activates under `bindings`: that of the first
/// entry whose trigger equals `content` as a whole, or `None` where no
/// trigger does.
pub open spec fn lookup(bindings: Seq<Binding>, content: Seq<char>) -> Option<Command> {
    if exists|i: int| is_first_match(bindings, content, i) {
        Some(bindings[choose|i: int| is_first_match(bindings, content, i)].command)
    } else {
        None
    }
}

/// Whether every trigger of `bindings` can be told from blank text: none is
/// empty or made of white space alone.
pub open spec fn triggers_usable(bindings: Seq<Binding>) -> bool {
    forall|i: int| 0 <= i < bindings.len() ==> !is_blank((#[trigger] bindings[i]).trigger)
}

/// The registry that the bot starts with: the one trigger
/// [`NEW_PLANET_TRIGGER`], for [`Command::NewPlanet`].
pub open spec fn standard_bindings() -> Seq<Binding> {
    seq![Binding { trigger: NEW_PLANET_TRIGGER@, command: Command::NewPlanet }]
}

/// A text has at most one first match.
pub proof fn lemma_first_match_unique(bindings: Seq<Binding>, content: Seq<char>, i: int, j: int)
    requires
        is_first_match(bindings, content, i),
        is_first_match(bindings, content, j),
    ensures
        i == j,
{
    if i < j {
        assert(bindings[i].trigger != content);
    } else if j < i {
        assert(bindings[j].trigger != content);
    }
}

/// Where entry `i` is the first match of `content`, `content` activates that
/// entry's command.
pub proof fn lemma_lookup_first_match(bindings: Seq<Binding>, content: Seq<char>, i: int)
    requires
        is_first_match(bindings, content, i),
    ensures
        lookup(bindings, content) == Some(bindings[i].command),
{
    let k = choose|k: int| is_first_match(bindings, content, k);
    lemma_first_match_unique(bindings, content, i, k);
}

/// Among the first `n` entries, either none has the trigger `content` or one
/// of them is its first match.
proof fn lemma_first_match_within(bindings: Seq<Binding>, content: Seq<char>, n: int)
    requires
        0 <= n <= bindings.len(),
    ensures
        (forall|i: int| 0 <= i < n ==> (#[trigger] bindings[i]).trigger != content) || (exists|
            i: int,
        |
            0 <= i < n && is_first_match(bindings, content, i)),
    decreases n,
{
    if n > 0 {
        lemma_first_match_within(bindings, content, n - 1);
        if forall|i: int| 0 <= i < n - 1 ==> (#[trigger] bindings[i]).trigger != content {
            if bindings[n - 1].trigger == content {
                assert(is_first_match(bindings, content, n - 1));
            }
        } else {
            let i = choose|i: int| 0 <= i < n - 1 && is_first_match(bindings, content, i);
            assert(0 <= i < n && is_first_match(bindings, content, i));
        }
    }
}

/// A text activates no command exactly when no trigger equals it.
pub proof fn lemma_lookup_none(bindings: Seq<Binding>, content: Seq<char>)
    ensures
        lookup(bindings, content) is None <==> no_match(bindings, content),
{
    if no_match(bindings, content) {
        assert forall|i: int| !is_first_match(bindings, content, i) by {
            if 0 <= i < bindings.len() {
                assert(bindings[i].trigger != content);
            }
        }
    } else {
        lemma_first_match_within(bindings, content, bindings.len() as int);
    }
}

/// A text activates a command exactly when that command belongs to the first
/// entry whose trigger equals the text.
pub proof fn lemma_lookup_some(bindings: Seq<Binding>, content: Seq<char>, command: Command)
    ensures
        lookup(bindings, content) == Some(command) <==> exists|i: int|
            is_first_match(bindings, content, i) && bindings[i].command == command,
{
    if exists|i: int| is_first_match(bindings, content, i) && bindings[i].command == command {
        let i = choose|i: int| is_first_match(bindings, content, i) && bindings[i].command == command;
        lemma_lookup_first_match(bindings, content, i);
    }
    if lookup(bindings, content) == Some(command) {
        let k = choose|k: int| is_first_match(bindings, content, k);
        assert(is_first_match(bindings, content, k) && bindings[k].command == command);
    }
}

/// Blank text, empty or made of white space alone, activates no command of a
/// registry whose triggers are usable.
pub proof fn lemma_blank_never_matches(bindings: Seq<Binding>, content: Seq<char>)
    requires
        triggers_usable(bindings),
        is_blank(content),
    ensures
        lookup(bindings, content) is None,
{
    assert forall|i: int| 0 <= i < bindings.len() implies (#[trigger] bindings[i]).trigger
        != content by {
        assert(!is_blank(bindings[i].trigger));
    }
    lemma_lookup_none(bindings, content);
}

/// Under the standard registry the text [`NEW_PLANET_TRIGGER`], and no other
/// text, activates a command, and that command is [`Command::NewPlanet`].
pub proof fn lemma_standard_lookup(content: Seq<char>)
    ensures
        content == NEW_PLANET_TRIGGER@ ==> lookup(standard_bindings(), content) == Some(
            Command::NewPlanet,
        ),
        content != NEW_PLANET_TRIGGER@ ==> lookup(standard_bindings(), content) is None,
{
    let bindings = standard_bindings();
    if content == NEW_PLANET_TRIGGER@ {
        assert(is_first_match(bindings, content, 0));
        lemma_lookup_first_match(bindings, content, 0);
    } else {
        assert(no_match(bindings, content));
        lemma_lookup_none(bindings, content);
    }
}

/// The triggers of the standard registry are usable.
pub proof fn lemma_standard_usable()
    ensures
        triggers_usable(standard_bindings()),
{
    reveal_strlit("!newplanet");
    let trigger = NEW_PLANET_TRIGGER@;
    assert(trigger[0] == '!');
    assert(!crate::text::is_whitespace(trigger[0]));
}

/// What a message activates depends on its text alone: two events with the
/// same text activate the same command, whatever their channels and authors,
/// and so does one event asked about twice.
pub proof fn lemma_match_by_content(bindings: Seq<Binding>, a: MessageEventView, b: MessageEventView)
    requires
        a.content == b.content,
    ensures
        lookup(bindings, a.content) == lookup(bindings, b.content),
{
}

/// Why a trigger was not registered.
#[derive(Clone, Copy, Debug, PartialEq, Eq, Structural)]
pub enum RegistryError {
    /// The trigger is empty or made of white space alone.
    BlankTrigger,
}

struct Entry {
    trigger: String,
    command: Command,
}

/// The triggers that the bot answers to, each with its command, in the order
/// in which they were registered.
///
/// A registry is filled when the bot starts and only read afterwards. No
/// trigger in it is blank.
pub struct TriggerRegistry {
    entries: Vec<Entry>,
}

impl View for TriggerRegistry {
    type V = Seq<Binding>;

    closed spec fn view(&self) -> Seq<Binding> {
        bindings_of(self.entries@)
    }
}

spec fn bindings_of(entries: Seq<Entry>) -> Seq<Binding> {
    Seq::new(
        entries.len(),
        |i: int| Binding { trigger: entries[i].trigger@, command: entries[i].command },
    )
}

impl TriggerRegistry {
    #[verifier::type_invariant]
    spec fn usable(self) -> bool {
        triggers_usable(self@)
    }

    /// A registry without triggers.
    pub fn new() -> (registry: TriggerRegistry)
        ensures
            registry@ == Seq::<Binding>::empty(),
            triggers_usable(registry@),
    {
        TriggerRegistry { entries: Vec::new() }
    }

    /// The registry that the bot starts with.
    pub fn standard() -> (registry: TriggerRegistry)
        ensures
            registry@ == standard_bindings(),
            triggers_usable(registry@),
    {
        let mut entries: Vec<Entry> = Vec::new();
        entries.push(
            Entry { trigger: String::from_str(NEW_PLANET_TRIGGER), command: Command::NewPlanet },
        );
        proof {
            lemma_standard_usable();
            assert(bindings_of(entries@) =~= standard_bindings());
        }
        TriggerRegistry { entries }
    }

    /// The number of registered triggers.
    pub fn len(&self) -> (n: usize)
        ensures
            n == self@.len(),
    {
        self.entries.len()
    }

    /// Whether no trigger is registered.
    pub fn is_empty(&self) -> (empty: bool)
        ensures
            empty == (self@.len() == 0),
    {
        self.entries.len() == 0
    }

    /// Registers `trigger` for `command`, behind the triggers that are there.
    /// A blank trigger is refused, and the registry stays as it was.
    pub fn register(&mut self, trigger: &str, command: Command) -> (r: Result<(), RegistryError>)
        ensures
            r is Err <==> is_blank(trigger@),
            r is Err ==> r == Err::<(), RegistryError>(RegistryError::BlankTrigger) && final(self)@
                == old(self)@,
            r is Ok ==> final(self)@ == old(self)@.push(
                Binding { trigger: trigger@, command: command },
            ),
            triggers_usable(final(self)@),
    {
        proof {
            use_type_invariant(&*self);
        }
        if text_is_blank(trigger) {
            return Err(RegistryError::BlankTrigger);
        }
        let mut entries: Vec<Entry> = Vec::new();
        std::mem::swap(&mut entries, &mut self.entries);
        entries.push(Entry { trigger: String::from_str(trigger), command });
        proof {
            let added = Binding { trigger: trigger@, command: command };
            assert(bindings_of(entries@) =~= old(self)@.push(added));
            assert forall|i: int| 0 <= i < old(self)@.push(added).len() implies !is_blank(
                (#[trigger] old(self)@.push(added)[i]).trigger,
            ) by {
                if i < old(self)@.len() {
                    assert(!is_blank(old(self)@[i].trigger));
                }
            }
        }
        self.entries = entries;
        Ok(())
    }

    /// The command that the text `content` activates: that of the first
    /// trigger equal to the whole of `content`, or `None` where no trigger is.
    pub fn match_content(&self, content: &String) -> (found: Option<Command>)
        ensures
            found == lookup(self@, content@),
            found is None <==> no_match(self@, content@),
            found matches Some(command) ==> exists|i: int|
                is_first_match(self@, content@, i) && self@[i].command == command,
            triggers_usable(self@),
    {
        proof {
            use_type_invariant(self);
            lemma_lookup_none(self@, content@);
        }
        let mut i: usize = 0;
        while i < self.entries.len()
            invariant
                i <= self.entries.len(),
                triggers_usable(self@),
                forall|j: int| 0 <= j < i ==> (#[trigger] self@[j]).trigger != content@,
            decreases self.entries.len() - i,
        {
            if self.entries[i].trigger == *content {
                proof {
                    assert(self@[i as int].trigger == content@);
                    assert(is_first_match(self@, content@, i as int));
                    lemma_lookup_first_match(self@, content@, i as int);
                }
                return Some(self.entries[i].command);
            }
            i += 1;
        }
        None
    }

    /// The command that `event` activates, by its text alone.
    pub fn match_event(&self, event: &MessageEvent) -> (found: Option<Command>)
        ensures
            found == lookup(self@, event@.content),
            found is None <==> no_match(self@, event@.content),
            found matches Some(command) ==> exists|i: int|
                is_first_match(self@, event@.content, i) && self@[i].command == command,
            triggers_usable(self@),
    {
        self.match_content(event.content())
    }
}

} // verus!
