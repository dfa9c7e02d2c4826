//! The lookup table from a job's type tag to the handler that performs it.
//!
//! A registry belongs to one environment type. Entries declared for another
//! environment type never enter it, so one process can run several runners
//! whose jobs do not see each other.

use crate::errors::PerformError;
use crate::job::BackgroundJob;
use std::any::TypeId;
use std::marker::PhantomData;
use vstd::hash_map::StringHashMap;
use vstd::prelude::*;
use vstd::string::StringExecFns;

verus! {

/// `std::any::TypeId`, the identity of a type at run time.
#[verifier::external_type_specification]
#[verifier::external_body]
pub struct ExTypeId(TypeId);

/// `TypeId::of` gives the identity of `T`. Nothing is claimed of it here:
/// what a caller learns of an identity, it learns by comparing.
pub assume_specification<T: ?Sized + 'static>[ TypeId::of::<T> ]() -> (id: TypeId);

/// `TypeId`'s `==` holds of two identities exactly when they are the same
/// identity.
pub assume_specification[ <TypeId as PartialEq>::eq ](a: &TypeId, b: &TypeId) -> (same: bool)
    ensures
        same == (*a == *b),
;

/// The handler of a job type: it decodes the payload and runs the job.
///
/// What it returns is up to the job. A handler may fail with any message.
pub trait PerformFn<Env> {
    /// Decodes `data` and performs the job in the environment `env`.
    fn call(&self, data: serde_json::Value, env: &Env) -> (outcome: Result<(), PerformError>);
}

/// One declared job type: the environment type it is declared for, its tag,
/// and its handler.
pub struct JobVTable<H> {
    pub env_type: TypeId,
    pub job_type: &'static str,
    pub perform: H,
}

impl<H: Copy> Clone for JobVTable<H> {
    fn clone(&self) -> (copy: Self)
        ensures
            copy == *self,
    {
        *self
    }
}

impl<H: Copy> Copy for JobVTable<H> {

}

impl<H> JobVTable<H> {
    /// The entry of the job type `job_type`, declared for the environment
    /// type `env_type` and performed by `perform`.
    pub fn new(env_type: TypeId, job_type: &'static str, perform: H) -> (vtable: Self)
        ensures
            vtable.env_type == env_type,
            vtable.job_type@ == job_type@,
            vtable.perform == perform,
    {
        JobVTable { env_type, job_type, perform }
    }
}

/// The table that a registry for `env_type` holds after it has read
/// `entries` in order: each entry declared for `env_type` stands under its
/// tag, and of two entries with one tag the later one stays.
pub open spec fn registered<H>(entries: Seq<JobVTable<H>>, env_type: TypeId) -> Map<
    Seq<char>,
    JobVTable<H>,
>
    decreases entries.len(),
{
    if entries.len() == 0 {
        Map::empty()
    } else {
        let earlier = registered(entries.drop_last(), env_type);
        let last = entries.last();
        if last.env_type == env_type {
            earlier.insert(last.job_type@, last)
        } else {
            earlier
        }
    }
}

/// Whether the entry at `i` of `entries` is declared for `env_type` under
/// the tag `tag`.
pub open spec fn declares<H>(
    entries: Seq<JobVTable<H>>,
    env_type: TypeId,
    tag: Seq<char>,
    i: int,
) -> bool {
    0 <= i < entries.len() && entries[i].env_type == env_type && entries[i].job_type@ == tag
}

/// Every entry of a registry's table stands under its own tag and is
/// declared for the registry's environment type: an entry declared for one
/// environment type never resolves in a registry of another.
pub proof fn lemma_registered_entries_match<H>(
    entries: Seq<JobVTable<H>>,
    env_type: TypeId,
    tag: Seq<char>,
)
    requires
        registered(entries, env_type).contains_key(tag),
    ensures
        registered(entries, env_type)[tag].env_type == env_type,
        registered(entries, env_type)[tag].job_type@ == tag,
    decreases entries.len(),
{
    if entries.len() > 0 {
        let last = entries.last();
        if last.env_type == env_type && last.job_type@ == tag {
        } else {
            lemma_registered_entries_match(entries.drop_last(), env_type, tag);
        }
    }
}

/// A tag resolves in a registry exactly when some entry is declared for the
/// registry's environment type under that tag.
pub proof fn lemma_registered_contains<H>(
    entries: Seq<JobVTable<H>>,
    env_type: TypeId,
    tag: Seq<char>,
)
    ensures
        registered(entries, env_type).contains_key(tag) <==> exists|i: int|
            declares(entries, env_type, tag, i),
    decreases entries.len(),
{
    if entries.len() > 0 {
        let earlier = entries.drop_last();
        let last = entries.last();
        lemma_registered_contains(earlier, env_type, tag);
        if registered(entries, env_type).contains_key(tag) {
            if last.env_type == env_type && last.job_type@ == tag {
                assert(declares(entries, env_type, tag, entries.len() - 1));
            } else {
                let i = choose|i: int| declares(earlier, env_type, tag, i);
                assert(declares(entries, env_type, tag, i));
            }
        }
        if exists|i: int| declares(entries, env_type, tag, i) {
            let i = choose|i: int| declares(entries, env_type, tag, i);
            if i < entries.len() - 1 {
                assert(declares(earlier, env_type, tag, i));
            }
        }
    }
}

/// Of the entries declared for the registry's environment type under one
/// tag, the registry keeps the one that was read last.
pub proof fn lemma_registered_keeps_last<H>(
    entries: Seq<JobVTable<H>>,
    env_type: TypeId,
    tag: Seq<char>,
    i: int,
)
    requires
        declares(entries, env_type, tag, i),
        forall|j: int| i < j < entries.len() ==> !declares(entries, env_type, tag, j),
    ensures
        registered(entries, env_type).contains_key(tag),
        registered(entries, env_type)[tag] == entries[i],
    decreases entries.len(),
{
    let earlier = entries.drop_last();
    if i < entries.len() - 1 {
        assert(!declares(entries, env_type, tag, entries.len() - 1));
        assert(declares(earlier, env_type, tag, i));
        assert forall|j: int| i < j < earlier.len() implies !declares(earlier, env_type, tag, j) by {
            assert(!declares(entries, env_type, tag, j));
        }
        lemma_registered_keeps_last(earlier, env_type, tag, i);
    }
}

/// A registry of background jobs, used to map job types to concrete perform
/// functions at runtime.
#[verifier::reject_recursive_types(H)]
pub struct Registry<Env, H> {
    jobs: StringHashMap<JobVTable<H>>,
    env_type: TypeId,
    _marker: PhantomData<Env>,
}

impl<Env, H> View for Registry<Env, H> {
    type V = Map<Seq<char>, JobVTable<H>>;

    closed spec fn view(&self) -> Self::V {
        self.jobs@
    }
}

/// The handler found for a job type, ready to be run in an environment of
/// type `Env`.
pub struct PerformJob<Env, H> {
    pub vtable: JobVTable<H>,
    pub _marker: PhantomData<Env>,
}

impl<Env, H> Registry<Env, H> {
    /// Every entry stands under its own tag and is declared for the
    /// registry's environment type.
    #[verifier::type_invariant]
    closed spec fn inv(&self) -> bool {
        forall|tag: Seq<char>| #[trigger]
            self.jobs@.contains_key(tag) ==> self.jobs@[tag].job_type@ == tag
                && self.jobs@[tag].env_type == self.env_type
    }

    /// The environment type whose jobs the registry holds.
    pub closed spec fn env_type(&self) -> TypeId {
        self.env_type
    }
}

impl<Env: 'static, H: Copy> Registry<Env, H> {

    /// Loads the registry from all declared job types, keeping those that
    /// are declared for the environment type `Env`.
    pub fn load(entries: Vec<JobVTable<H>>) -> (registry: Self)
        ensures
            registry@ == registered(entries@, registry.env_type()),
    {
        Self::load_for(TypeId::of::<Env>(), entries)
    }

    /// Loads the registry from all declared job types, keeping those that
    /// are declared for the environment type `env_type`.
    pub fn load_for(env_type: TypeId, entries: Vec<JobVTable<H>>) -> (registry: Self)
        ensures
            registry.env_type() == env_type,
            registry@ == registered(entries@, env_type),
    {
        let mut jobs: StringHashMap<JobVTable<H>> = StringHashMap::new();
        let mut i: usize = 0;
        while i < entries.len()
            invariant
                i <= entries.len(),
                jobs@ == registered(entries@.subrange(0, i as int), env_type),
                forall|tag: Seq<char>| #[trigger]
                    jobs@.contains_key(tag) ==> jobs@[tag].job_type@ == tag && jobs@[tag].env_type
                        == env_type,
            decreases entries.len() - i,
        {
            let vtable = entries[i];
            proof {
                assert(entries@.subrange(0, i + 1).drop_last() =~= entries@.subrange(0, i as int));
                assert(entries@.subrange(0, i + 1).last() == entries@[i as int]);
            }
            if vtable.env_type == env_type {
                jobs.insert(String::from_str(vtable.job_type), vtable);
            }
            i = i + 1;
        }
        assert(entries@.subrange(0, i as int) =~= entries@);
        Registry { jobs, env_type, _marker: PhantomData }
    }

    /// Get the perform function for a given job type.
    pub fn get(&self, job_type: &str) -> (found: Option<PerformJob<Env, H>>)
        ensures
            match found {
                Some(perform_job) => self@.contains_key(job_type@) && perform_job.vtable
                    == self@[job_type@] && perform_job.vtable.job_type@ == job_type@
                    && perform_job.vtable.env_type == self.env_type(),
                None => !self@.contains_key(job_type@),
            },
    {
        proof {
            use_type_invariant(self);
        }
        match self.jobs.get(job_type) {
            Some(vtable) => Some(PerformJob { vtable: *vtable, _marker: PhantomData }),
            None => None,
        }
    }
}

/// The message of the error for a job whose type no handler is registered
/// for.
pub open spec fn unknown_job_type_text(job_type: Seq<char>) -> Seq<char> {
    "Unknown job type "@ + job_type
}

impl<Env: 'static, H: Copy> Registry<Env, H> {
    /// Finds the handler for `job`.
    ///
    /// A job whose type is not registered has no handler: the result is
    /// then the error "Unknown job type " followed by the type, which is a
    /// failure of the job like any other.
    pub fn handler_for(&self, job: &BackgroundJob) -> (found: Result<PerformJob<Env, H>, PerformError>)
        ensures
            match found {
                Ok(perform_job) => self@.contains_key(job.job_type@) && perform_job.vtable
                    == self@[job.job_type@] && perform_job.vtable.job_type@ == job.job_type@
                    && perform_job.vtable.env_type == self.env_type(),
                Err(e) => !self@.contains_key(job.job_type@) && e.message@
                    == unknown_job_type_text(job.job_type@),
            },
    {
        match self.get(job.job_type.as_str()) {
            Some(perform_job) => Ok(perform_job),
            None => Err(
                PerformError {
                    message: String::from_str("Unknown job type ").concat(job.job_type.as_str()),
                },
            ),
        }
    }
}

/// The message of the error that answers an environment of the wrong type.
pub open spec fn incorrect_environment_text() -> Seq<char> {
    "Incorrect environment type."@
}

impl<Env: 'static, H: PerformFn<Env>> PerformJob<Env, H> {
    /// Whether `outcome` is what comes of performing the job on `data` in
    /// the environment `env`, whose type has the identity `env_type`.
    ///
    /// A handler declared for that environment type is called with `data`
    /// and `env`, and what it returns is the outcome. A handler declared
    /// for another environment type is not called: the outcome is then the
    /// error "Incorrect environment type.".
    pub open spec fn performed_as(
        &self,
        env_type: TypeId,
        data: serde_json::Value,
        env: &Env,
        outcome: Result<(), PerformError>,
    ) -> bool {
        if self.vtable.env_type == env_type {
            call_ensures(H::call, (&self.vtable.perform, data, env), outcome)
        } else {
            outcome matches Err(e) && e.message@ == incorrect_environment_text()
        }
    }

    /// Performs the job on `data` in the environment `env`.
    ///
    /// The handler is run only if it is declared for the environment type
    /// `Env`; what it returns is then the result. Otherwise the result is
    /// the error "Incorrect environment type.".
    pub fn perform(&self, data: serde_json::Value, env: &Env) -> (outcome: Result<(), PerformError>)
        ensures
            exists|env_type: TypeId| #[trigger] self.performed_as(env_type, data, env, outcome),
    {
        let env_type = TypeId::of::<Env>();
        let outcome = self.perform_as(env_type, data, env);
        assert(self.performed_as(env_type, data, env, outcome));
        outcome
    }

    /// Performs the job on `data` in the environment `env`, whose type has
    /// the identity `env_type`.
    ///
    /// A handler declared for another environment type is not run: the
    /// result is then the error "Incorrect environment type.". Otherwise
    /// the result is what the handler returns.
    pub fn perform_as(&self, env_type: TypeId, data: serde_json::Value, env: &Env) -> (outcome: Result<
        (),
        PerformError,
    >)
        ensures
            self.performed_as(env_type, data, env, outcome),
    {
        if self.vtable.env_type == env_type {
            self.vtable.perform.call(data, env)
        } else {
            Err(PerformError::new("Incorrect environment type."))
        }
    }
}

} // verus!
