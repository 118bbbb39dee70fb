//! The environment that the directives act on: the ordered list of
//! instances, each under the name it was last given, and the operations that
//! look instances up, add and rename them, pick the one to run, and remove
//! them.

use crate::error::ScriptError;
use crate::instance::Instance;
use crate::pipeline::{stage_error, stage_error_of, StageFailure};
use crate::registry::{
    has_named, is_first_named, lemma_alias_resolves_to_registered, lemma_resolve_first,
    lemma_resolve_sound, missing_message, name_view, resolve,
};
use vstd::prelude::*;

verus! {

/// An entry of the list as the contracts see it: its name and its instance.
pub open spec fn entry_view(entry: (Option<String>, Instance)) -> (Option<Seq<char>>, Instance) {
    (name_view(entry.0), entry.1)
}

/// The names of a list of entries, in order.
pub open spec fn names_of(entries: Seq<(Option<Seq<char>>, Instance)>) -> Seq<Option<Seq<char>>> {
    entries.map_values(|entry: (Option<Seq<char>>, Instance)| entry.0)
}

/// The instance that a lookup finds in a list of entries, if any.
pub open spec fn found(entries: Seq<(Option<Seq<char>>, Instance)>, name: Option<Seq<char>>) -> Option<
    Instance,
> {
    match resolve(names_of(entries), name) {
        Some(i) => Some(entries[i].1),
        None => None,
    }
}

/// The list after the entry that `name` resolves to has been given the name
/// `alias`; the list itself where nothing is found.
pub open spec fn registered(
    entries: Seq<(Option<Seq<char>>, Instance)>,
    name: Option<Seq<char>>,
    alias: Seq<char>,
) -> Seq<(Option<Seq<char>>, Instance)> {
    match resolve(names_of(entries), name) {
        Some(i) => entries.update(i, (Some(alias), entries[i].1)),
        None => entries,
    }
}

/// The result that a failed lookup of `name` must report.
pub open spec fn reports_missing<T>(result: Result<T, ScriptError>, name: Option<Seq<char>>) -> bool {
    result matches Err(ScriptError::MalformedScript(message)) && message@ == missing_message(name)
}

/// The instances that the directives have defined so far, in the order in
/// which they were defined.
pub struct ScriptEnv {
    instances: Vec<(Option<String>, Instance)>,
}

impl View for ScriptEnv {
    type V = Seq<(Option<Seq<char>>, Instance)>;

    closed spec fn view(&self) -> Seq<(Option<Seq<char>>, Instance)> {
        self.instances@.map_values(|entry: (Option<String>, Instance)| entry_view(entry))
    }
}

/// Builds the error for a lookup that found nothing.
fn missing(name: &Option<String>) -> (err: ScriptError)
    ensures
        err matches ScriptError::MalformedScript(message) && message@ == missing_message(
            name_view(*name),
        ),
{
    match name {
        None => ScriptError::MalformedScript("no defined instances".to_owned()),
        Some(wanted) => ScriptError::MalformedScript(
            "no instance named ".to_owned().concat(wanted.as_str()),
        ),
    }
}

/// Copies a name.
fn copy_name(name: &Option<String>) -> (copy: Option<String>)
    ensures
        name_view(copy) == name_view(*name),
{
    match name {
        None => None,
        Some(text) => Some(text.clone()),
    }
}

/// What a directive that runs an export reports for what the sandbox
/// returned: the value as it is, and any failure of the sandbox as a runtime
/// error.
pub fn run_outcome(outcome: Result<lucet_runtime::UntypedRetVal, lucet_runtime::Error>) -> (result:
    Result<lucet_runtime::UntypedRetVal, ScriptError>)
    ensures
        match outcome {
            Ok(value) => result == Ok::<_, ScriptError>(value),
            Err(e) => result == Err::<lucet_runtime::UntypedRetVal, _>(
                ScriptError::RuntimeError(e),
            ),
        },
{
    match outcome {
        Ok(value) => Ok(value),
        Err(e) => Err(ScriptError::RuntimeError(e)),
    }
}

impl ScriptEnv {
    /// The names of the entries, in order.
    pub open spec fn names(self) -> Seq<Option<Seq<char>>> {
        names_of(self@)
    }

    /// An environment without instances.
    pub fn new() -> (env: Self)
        ensures
            env@ == Seq::<(Option<Seq<char>>, Instance)>::empty(),
    {
        ScriptEnv { instances: Vec::new() }
    }

    /// How many instances are defined.
    pub fn len(&self) -> (count: usize)
        ensures
            count == self@.len(),
    {
        self.instances.len()
    }

    /// The position that `name` resolves to, if any.
    fn position(&self, name: &Option<String>) -> (index: Option<usize>)
        ensures
            match index {
                Some(i) => resolve(self.names(), name_view(*name)) == Some(i as int) && i
                    < self@.len(),
                None => resolve(self.names(), name_view(*name)) is None,
            },
    {
        match name {
            None => {
                let count = self.instances.len();
                if count == 0 {
                    None
                } else {
                    Some(count - 1)
                }
            },
            Some(wanted) => {
                let mut i: usize = 0;
                while i < self.instances.len()
                    invariant
                        i <= self.instances.len(),
                        name_view(*name) == Some(wanted@),
                        forall|j: int| 0 <= j < i ==> self.names()[j] != Some(wanted@),
                    decreases self.instances.len() - i,
                {
                    let carries = match &self.instances[i].0 {
                        Some(given) => *given == *wanted,
                        None => false,
                    };
                    if carries {
                        proof {
                            assert(is_first_named(self.names(), wanted@, i as int));
                            lemma_resolve_first(self.names(), wanted@, i as int);
                        }
                        return Some(i);
                    }
                    i += 1;
                }
                proof {
                    assert forall|k: int| !is_first_named(self.names(), wanted@, k) by {}
                    assert(!has_named(self.names(), wanted@));
                }
                None
            },
        }
    }

    /// Looks an instance up: without a name the one defined last, with a
    /// name the first one that carries it. A lookup that finds nothing is a
    /// mistake of the script and is reported as such.
    pub fn instance_named(&self, name: &Option<String>) -> (result: Result<&Instance, ScriptError>)
        ensures
            match found(self@, name_view(*name)) {
                Some(instance) => result matches Ok(handed) && *handed == instance,
                None => reports_missing(result, name_view(*name)),
            },
    {
        match self.position(name) {
            Some(i) => Ok(&self.instances[i].1),
            None => Err(missing(name)),
        }
    }

    /// Looks an entry up as `instance_named` does and hands it out for
    /// change. Whatever the caller makes of the entry takes its place in the
    /// list; no other entry is touched.
    pub fn instance_named_mut(&mut self, name: &Option<String>) -> (result: Result<
        &mut (Option<String>, Instance),
        ScriptError,
    >)
        ensures
            match resolve(old(self).names(), name_view(*name)) {
                Some(i) => {
                    &&& result is Ok
                    &&& entry_view(*result.unwrap()) == old(self)@[i]
                    &&& final(self)@ == old(self)@.update(
                        i,
                        entry_view(*final(result.unwrap())),
                    )
                },
                None => reports_missing(result, name_view(*name)) && final(self)@ == old(self)@,
            },
    {
        match self.position(name) {
            Some(i) => Ok(&mut self.instances[i]),
            None => Err(missing(name)),
        }
    }

    /// Gives the entry that `name` resolves to the name `as_name`, in place
    /// of the name it had. A lookup that finds nothing changes nothing.
    pub fn register(&mut self, name: &Option<String>, as_name: &str) -> (result: Result<
        (),
        ScriptError,
    >)
        ensures
            final(self)@ == registered(old(self)@, name_view(*name), as_name@),
            match resolve(old(self).names(), name_view(*name)) {
                Some(i) => result is Ok && final(self).names() == old(self).names().update(
                    i,
                    Some(as_name@),
                ),
                None => reports_missing(result, name_view(*name)),
            },
    {
        match self.instance_named_mut(name) {
            Ok(entry) => {
                entry.0 = Some(as_name.to_owned());
                proof {
                    let i = resolve(old(self).names(), name_view(*name)).unwrap();
                    lemma_resolve_sound(old(self).names(), name_view(*name));
                    assert(self.names() =~= old(self).names().update(i, Some(as_name@)));
                }
                Ok(())
            },
            Err(e) => Err(e),
        }
    }

    /// Ends an attempt to define an instance, given what the pipeline came
    /// to. The caller has run the steps from the bytes of the module on, in
    /// their order and up to the first failure, and hands in the instance or
    /// that failure. An instance is appended under `name` and becomes the
    /// current one. A failure is reported as the one error that it amounts
    /// to, and the list is left as it was: no attempt leaves a partial entry.
    pub fn instantiate(&mut self, name: &Option<String>, built: Result<Instance, StageFailure>) -> (result:
        Result<(), ScriptError>)
        ensures
            match built {
                Ok(instance) => {
                    &&& result is Ok
                    &&& final(self)@ == old(self)@.push((name_view(*name), instance))
                    &&& final(self).names() == old(self).names().push(name_view(*name))
                    &&& found(final(self)@, None) == Some(instance)
                },
                Err(failure) => result == Err::<(), _>(stage_error_of(failure)) && final(self)@
                    == old(self)@,
            },
    {
        match built {
            Ok(instance) => {
                self.instances.push((copy_name(name), instance));
                proof {
                    assert(self@ =~= old(self)@.push((name_view(*name), instance)));
                    assert(self.names() =~= old(self).names().push(name_view(*name)));
                }
                Ok(())
            },
            Err(failure) => Err(stage_error(failure)),
        }
    }

    /// Picks the sandbox context in which an export is to be invoked: that
    /// of the instance that `name` resolves to. A lookup that finds nothing
    /// is reported and touches no instance. Otherwise the caller invokes the
    /// export in the context handed out, once, and whatever state that
    /// leaves the context in becomes the state of that one instance; its
    /// name, its region and every other entry stay as they were.
    pub fn run(&mut self, name: &Option<String>) -> (result: Result<
        &mut lucet_runtime::InstanceHandle,
        ScriptError,
    >)
        ensures
            match resolve(old(self).names(), name_view(*name)) {
                Some(i) => {
                    &&& result is Ok
                    &&& *result.unwrap() == old(self)@[i].1.context()
                    &&& final(self)@ == old(self)@.update(
                        i,
                        (old(self)@[i].0, old(self)@[i].1.with_context(*final(result.unwrap()))),
                    )
                },
                None => reports_missing(result, name_view(*name)) && final(self)@ == old(self)@,
            },
    {
        match self.instance_named_mut(name) {
            Ok(entry) => Ok(entry.1.context_mut()),
            Err(e) => Err(e),
        }
    }

    /// Removes the instance defined last.
    pub fn delete_last(&mut self)
        requires
            old(self)@.len() > 0,
        ensures
            final(self)@ == old(self)@.drop_last(),
            final(self).names() == old(self).names().drop_last(),
    {
        let last_index = self.instances.len() - 1;
        self.instances.remove(last_index);
        proof {
            assert(self@ =~= old(self)@.drop_last());
            assert(self.names() =~= old(self).names().drop_last());
        }
    }
}

/// Last created wins: right after an instance has been defined, under
/// whatever name, a lookup without a name finds that instance.
pub proof fn lemma_defined_last_is_current(
    entries: Seq<(Option<Seq<char>>, Instance)>,
    name: Option<Seq<char>>,
    instance: Instance,
)
    ensures
        found(entries.push((name, instance)), None) == Some(instance),
        resolve(names_of(entries.push((name, instance))), None) == Some(entries.len() as int),
{
}

/// A name that no entry carries finds nothing, whatever else the list holds.
pub proof fn lemma_unknown_name_is_not_found(
    entries: Seq<(Option<Seq<char>>, Instance)>,
    wanted: Seq<char>,
)
    requires
        forall|j: int| 0 <= j < entries.len() ==> entries[j].0 != Some(wanted),
    ensures
        found(entries, Some(wanted)) is None,
{
    lemma_resolve_sound(names_of(entries), Some(wanted));
}

/// An instance registered under an alias is found again under that alias:
/// the lookup by the alias gives the instance that the lookup by `name` gave
/// before. This holds where no earlier entry carries the alias already; such
/// an entry would still come first.
pub proof fn lemma_alias_finds_registered_instance(
    entries: Seq<(Option<Seq<char>>, Instance)>,
    name: Option<Seq<char>>,
    alias: Seq<char>,
)
    requires
        found(entries, name) is Some,
        forall|j: int|
            0 <= j < resolve(names_of(entries), name).unwrap() ==> entries[j].0 != Some(alias),
    ensures
        found(registered(entries, name, alias), Some(alias)) == found(entries, name),
        resolve(names_of(registered(entries, name, alias)), Some(alias)) == resolve(
            names_of(entries),
            name,
        ),
{
    let names = names_of(entries);
    let i = resolve(names, name).unwrap();
    lemma_resolve_sound(names, name);
    assert(names_of(registered(entries, name, alias)) =~= names.update(i, Some(alias)));
    lemma_alias_resolves_to_registered(names, name, alias);
}

/// Registration renames one entry and nothing else: every instance stays in
/// its place, and the list keeps its length.
pub proof fn lemma_register_keeps_instances(
    entries: Seq<(Option<Seq<char>>, Instance)>,
    name: Option<Seq<char>>,
    alias: Seq<char>,
)
    ensures
        registered(entries, name, alias).len() == entries.len(),
        forall|j: int|
            0 <= j < entries.len() ==> registered(entries, name, alias)[j].1 == entries[j].1,
        found(registered(entries, name, alias), None) == found(entries, None),
{
    lemma_resolve_sound(names_of(entries), name);
}

/// Deleting the last entry of a list of `n` leaves the `n - 1` entries before
/// it, so that the one defined just before becomes the current one; and it
/// undoes a definition for every lookup.
pub proof fn lemma_delete_last_restores_previous(
    entries: Seq<(Option<Seq<char>>, Instance)>,
    added: (Option<Seq<char>>, Instance),
    name: Option<Seq<char>>,
)
    ensures
        entries.len() > 0 ==> entries.drop_last().len() == entries.len() - 1,
        entries.len() >= 2 ==> found(entries.drop_last(), None) == Some(
            entries[entries.len() - 2].1,
        ),
        entries.len() == 1 ==> found(entries.drop_last(), None) is None,
        found(entries.push(added).drop_last(), name) == found(entries, name),
{
    assert(entries.push(added).drop_last() =~= entries);
}

} // verus!
