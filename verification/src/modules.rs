//! The gathering of module output: each module's standard output is read as
//! a JSON value and put under the module's name into one document, in the
//! order in which the modules are configured.

use vstd::prelude::*;
use vstd::string::*;

verus! {

/// `serde_json::Value`, a JSON value. Nothing inside it is looked at here.
#[verifier::external_type_specification]
#[verifier::external_body]
pub struct ExJsonValue(serde_json::Value);

/// `serde_json::Map`, the entries of a JSON object. It is reached only
/// through the functions below.
#[verifier::external_type_specification]
#[verifier::external_body]
#[verifier::reject_recursive_types(K)]
#[verifier::reject_recursive_types(V)]
pub struct ExJsonMap<K, V>(serde_json::Map<K, V>);

/// The compact JSON text of the value that `text` is read as, or nothing
/// where `text` is not one JSON value.
pub uninterp spec fn json_parsed(text: Seq<char>) -> Option<Seq<char>>;

/// The compact JSON text of a value.
pub uninterp spec fn value_text(value: serde_json::Value) -> Seq<char>;

/// The entries of a JSON object in their order: each key with the compact
/// JSON text of its value.
pub uninterp spec fn object_entries(object: serde_json::Map<String, serde_json::Value>) -> Seq<
    (Seq<char>, Seq<char>),
>;

/// The compact JSON text of the object that holds the given entries.
pub uninterp spec fn object_text(entries: Seq<(Seq<char>, Seq<char>)>) -> Seq<char>;

/// The entries after `name` was given the value `text`: where an entry has
/// that name its value is replaced and it keeps its place, else a new entry
/// comes last.
pub open spec fn upsert(entries: Seq<(Seq<char>, Seq<char>)>, name: Seq<char>, text: Seq<char>) -> Seq<
    (Seq<char>, Seq<char>),
>
    decreases entries.len(),
{
    if entries.len() == 0 {
        seq![(name, text)]
    } else if entries[0].0 == name {
        seq![(name, text)] + entries.drop_first()
    } else {
        seq![entries[0]] + upsert(entries.drop_first(), name, text)
    }
}

/// What one run of a module gave.
#[derive(Debug)]
pub struct ModuleOutput {
    pub name: String,
    pub exit_code: i32,
    pub stdout: String,
}

/// A module that failed, with what it printed.
#[derive(Debug)]
pub struct ModuleFailure {
    pub module: String,
    pub output: String,
}

/// The value that a module's run contributes: the JSON value that it
/// printed, if it exited with success and printed one.
pub open spec fn module_value(exit_code: i32, stdout: Seq<char>) -> Option<Seq<char>> {
    if exit_code == 0 {
        json_parsed(stdout)
    } else {
        None
    }
}

/// The entries gathered from the runs in order, or the position of the
/// first run that contributes no value.
pub open spec fn gathered(outputs: Seq<ModuleOutput>) -> Result<Seq<(Seq<char>, Seq<char>)>, int>
    decreases outputs.len(),
{
    if outputs.len() == 0 {
        Ok(Seq::empty())
    } else {
        match gathered(outputs.drop_last()) {
            Err(position) => Err(position),
            Ok(entries) => match module_value(outputs.last().exit_code, outputs.last().stdout@) {
                Some(text) => Ok(upsert(entries, outputs.last().name@, text)),
                None => Err(outputs.len() - 1),
            },
        }
    }
}

/// Calls `serde_json::from_str` for a `Value`: the value that the text is
/// read as, or nothing where the text is rejected.
#[verifier::external_body]
fn parse_json(text: &str) -> (value: Option<serde_json::Value>)
    ensures
        match value {
            Some(v) => json_parsed(text@) == Some(value_text(v)),
            None => json_parsed(text@) is None,
        },
{
    serde_json::from_str::<serde_json::Value>(text).ok()
}

/// Calls `serde_json::Map::new`: an object without entries.
#[verifier::external_body]
fn empty_object() -> (object: serde_json::Map<String, serde_json::Value>)
    ensures
        object_entries(object) == Seq::<(Seq<char>, Seq<char>)>::empty(),
{
    serde_json::Map::new()
}

/// Calls `serde_json::Map::insert`: a key that the object holds keeps its
/// place and gets the new value, a new key comes last.
#[verifier::external_body]
fn object_insert(
    object: &mut serde_json::Map<String, serde_json::Value>,
    name: &str,
    value: serde_json::Value,
)
    ensures
        object_entries(*final(object)) == upsert(
            object_entries(*old(object)),
            name@,
            value_text(value),
        ),
{
    object.insert(name.to_owned(), value);
}

/// Calls `to_string` on the object as a `serde_json::Value`: its compact
/// JSON text.
#[verifier::external_body]
fn object_to_text(object: serde_json::Map<String, serde_json::Value>) -> (text: String)
    ensures
        text@ == object_text(object_entries(object)),
{
    serde_json::Value::Object(object).to_string()
}

/// The document that a cycle gathers.
pub struct Document {
    object: serde_json::Map<String, serde_json::Value>,
}

impl Document {
    /// The document's entries in their order: each module's name with the
    /// compact JSON text of its value.
    pub closed spec fn entries(&self) -> Seq<(Seq<char>, Seq<char>)> {
        object_entries(self.object)
    }

    /// A document without entries.
    pub fn new() -> (document: Document)
        ensures
            document.entries() == Seq::<(Seq<char>, Seq<char>)>::empty(),
    {
        Document { object: empty_object() }
    }

    /// Puts what a module's run gave under the module's name. A run that
    /// exited with failure, or printed anything but one JSON value, is
    /// reported with the module's name and what it printed, and leaves the
    /// document as it was.
    pub fn add(&mut self, name: &str, exit_code: i32, stdout: &str) -> (r: Result<
        (),
        ModuleFailure,
    >)
        ensures
            match module_value(exit_code, stdout@) {
                Some(text) => r is Ok && final(self).entries() == upsert(
                    old(self).entries(),
                    name@,
                    text,
                ),
                None => r is Err && r->Err_0.module@ == name@ && r->Err_0.output@ == stdout@
                    && final(self).entries() == old(self).entries(),
            },
    {
        if exit_code != 0 {
            return Err(
                ModuleFailure { module: String::from_str(name), output: String::from_str(stdout) },
            );
        }
        match parse_json(stdout) {
            Some(value) => {
                object_insert(&mut self.object, name, value);
                Ok(())
            },
            None => Err(
                ModuleFailure { module: String::from_str(name), output: String::from_str(stdout) },
            ),
        }
    }

    /// The document's compact JSON text.
    pub fn into_text(self) -> (text: String)
        ensures
            text@ == object_text(self.entries()),
    {
        object_to_text(self.object)
    }
}

/// Gathers the runs of all modules into one document and returns its JSON
/// text. The first run that failed, or printed anything but one JSON value,
/// fails the whole: nothing is gathered in part.
pub fn aggregate(outputs: &Vec<ModuleOutput>) -> (r: Result<String, ModuleFailure>)
    ensures
        match r {
            Ok(text) => gathered(outputs@) is Ok && text@ == object_text(gathered(outputs@)->Ok_0),
            Err(failure) => gathered(outputs@) is Err && {
                let position = gathered(outputs@)->Err_0;
                &&& 0 <= position < outputs@.len()
                &&& failure.module@ == outputs@[position].name@
                &&& failure.output@ == outputs@[position].stdout@
            },
        },
{
    let mut document = Document::new();
    let mut i: usize = 0;
    assert(outputs@.subrange(0, 0) =~= Seq::<ModuleOutput>::empty());
    while i < outputs.len()
        invariant
            i <= outputs.len(),
            gathered(outputs@.subrange(0, i as int)) == Ok::<Seq<(Seq<char>, Seq<char>)>, int>(
                document.entries(),
            ),
        decreases outputs.len() - i,
    {
        let ghost upto = outputs@.subrange(0, i as int + 1);
        assert(upto.drop_last() =~= outputs@.subrange(0, i as int));
        assert(upto.last() == outputs@[i as int]);
        let output = &outputs[i];
        match document.add(output.name.as_str(), output.exit_code, output.stdout.as_str()) {
            Ok(_) => {},
            Err(failure) => {
                proof {
                    lemma_failure_stays(outputs@, i as int + 1);
                }
                return Err(failure);
            },
        }
        i = i + 1;
    }
    assert(outputs@.subrange(0, outputs@.len() as int) =~= outputs@);
    Ok(document.into_text())
}

/// A failure among the first runs is the failure of the whole list.
pub proof fn lemma_failure_stays(outputs: Seq<ModuleOutput>, upto: int)
    requires
        0 <= upto <= outputs.len(),
        gathered(outputs.subrange(0, upto)) is Err,
    ensures
        gathered(outputs) == gathered(outputs.subrange(0, upto)),
    decreases outputs.len() - upto,
{
    if upto == outputs.len() {
        assert(outputs.subrange(0, upto) =~= outputs);
    } else {
        let next = outputs.subrange(0, upto + 1);
        assert(next.drop_last() =~= outputs.subrange(0, upto));
        lemma_failure_stays(outputs, upto + 1);
    }
}

/// A name that no entry has comes last.
pub proof fn lemma_upsert_new_name(
    entries: Seq<(Seq<char>, Seq<char>)>,
    name: Seq<char>,
    text: Seq<char>,
)
    requires
        forall|i: int| 0 <= i < entries.len() ==> (#[trigger] entries[i]).0 != name,
    ensures
        upsert(entries, name, text) == entries.push((name, text)),
    decreases entries.len(),
{
    if entries.len() == 0 {
        assert(seq![(name, text)] =~= entries.push((name, text)));
    } else {
        let rest = entries.drop_first();
        assert forall|i: int| 0 <= i < rest.len() implies (#[trigger] rest[i]).0 != name by {
            assert(rest[i] == entries[i + 1]);
        }
        lemma_upsert_new_name(rest, name, text);
        assert(seq![entries[0]] + rest.push((name, text)) =~= entries.push((name, text)));
    }
}

/// A name that an entry has keeps its place: the entries keep their number
/// and their names, the first entry of that name has the new value, and
/// every entry of another name is as it was.
pub proof fn lemma_upsert_known_name(
    entries: Seq<(Seq<char>, Seq<char>)>,
    name: Seq<char>,
    text: Seq<char>,
    at: int,
)
    requires
        0 <= at < entries.len(),
        entries[at].0 == name,
        forall|i: int| 0 <= i < at ==> (#[trigger] entries[i]).0 != name,
    ensures
        upsert(entries, name, text) == entries.update(at, (name, text)),
    decreases entries.len(),
{
    if at == 0 {
        assert(seq![(name, text)] + entries.drop_first() =~= entries.update(0, (name, text)));
    } else {
        let rest = entries.drop_first();
        assert(entries[0].0 != name);
        assert forall|i: int| 0 <= i < at - 1 implies (#[trigger] rest[i]).0 != name by {
            assert(rest[i] == entries[i + 1]);
        }
        lemma_upsert_known_name(rest, name, text, at - 1);
        assert(seq![entries[0]] + rest.update(at - 1, (name, text)) =~= entries.update(
            at,
            (name, text),
        ));
    }
}

/// The runs are gathered exactly when each of them contributes a value;
/// else the position reported is that of the first run that contributes
/// none.
pub proof fn lemma_gathered_fails_at_first_failure(outputs: Seq<ModuleOutput>)
    ensures
        match gathered(outputs) {
            Ok(entries) => forall|i: int|
                0 <= i < outputs.len() ==> module_value(
                    (#[trigger] outputs[i]).exit_code,
                    outputs[i].stdout@,
                ) is Some,
            Err(position) => {
                &&& 0 <= position < outputs.len()
                &&& module_value(outputs[position].exit_code, outputs[position].stdout@) is None
                &&& forall|i: int|
                    0 <= i < position ==> module_value(
                        (#[trigger] outputs[i]).exit_code,
                        outputs[i].stdout@,
                    ) is Some
            },
        },
    decreases outputs.len(),
{
    if outputs.len() > 0 {
        let before = outputs.drop_last();
        lemma_gathered_fails_at_first_failure(before);
        assert forall|i: int| 0 <= i < before.len() implies before[i] == outputs[i] by {}
    }
}

/// Modules whose names all differ come out in the order in which they ran:
/// the document holds one entry for each run, at the run's position, with
/// the run's name and value.
pub proof fn lemma_gathered_in_order(outputs: Seq<ModuleOutput>)
    requires
        forall|i: int, j: int|
            0 <= i < j < outputs.len() ==> outputs[i].name@ != outputs[j].name@,
        forall|i: int|
            0 <= i < outputs.len() ==> module_value(
                (#[trigger] outputs[i]).exit_code,
                outputs[i].stdout@,
            ) is Some,
    ensures
        gathered(outputs) == Ok::<Seq<(Seq<char>, Seq<char>)>, int>(
            Seq::new(
                outputs.len(),
                |i: int|
                    (outputs[i].name@, module_value(outputs[i].exit_code, outputs[i].stdout@)->0),
            ),
        ),
    decreases outputs.len(),
{
    let all = Seq::new(
        outputs.len(),
        |i: int| (outputs[i].name@, module_value(outputs[i].exit_code, outputs[i].stdout@)->0),
    );
    if outputs.len() == 0 {
        assert(all =~= Seq::empty());
    } else {
        let before = outputs.drop_last();
        let last = outputs.last();
        assert forall|i: int| 0 <= i < before.len() implies before[i] == outputs[i] by {}
        lemma_gathered_in_order(before);
        let entries = gathered(before)->Ok_0;
        assert forall|i: int| 0 <= i < entries.len() implies (#[trigger] entries[i]).0
            != last.name@ by {
            assert(outputs[i].name@ != outputs[outputs.len() - 1].name@);
        }
        let text = module_value(last.exit_code, last.stdout@)->0;
        lemma_upsert_new_name(entries, last.name@, text);
        assert(entries.push((last.name@, text)) =~= all);
    }
}

} // verus!
