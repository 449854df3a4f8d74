use vstd::prelude::*;

verus! {

use vstd::rwlock::RwLock;
use vstd::rwlock::RwLockPredicate;

/// Metadata describing the cubes this service exposes, rendered as text.
/// Created once at process start and shared, read-only, by every request
/// handler through [`SchemaFacade`].
pub struct Schema(String);

impl Clone for Schema {
    fn clone(&self) -> (r: Self)
        ensures
            r@ == self@,
    {
        Schema(self.0.clone())
    }
}

impl View for Schema {
    type V = Seq<char>;

    closed spec fn view(&self) -> Seq<char> {
        self.0@
    }
}

impl Schema {
    /// The fixed schema this service starts with.
    pub fn new() -> (s: Self)
        ensures
            s@ == "A Schema"@,
    {
        Schema("A Schema".to_owned())
    }

    /// Textual rendering of the schema, used when composing response bodies.
    pub fn render(&self) -> (r: String)
        ensures
            r@ == self@,
    {
        self.0.clone()
    }
}

/// The invariant on every schema stored in the facade's lock: it renders the
/// text fixed when the facade was built. In this core the schema is never
/// mutated after creation, so every reader observes that one text.
pub struct SchemaPred {
    pub text: Seq<char>,
}

impl RwLockPredicate<Schema> for SchemaPred {
    open spec fn inv(self, v: Schema) -> bool {
        v@ == self.text
    }
}

/// Concurrency-safe access to the process-wide schema: any number of
/// readers may hold it at once; a writer excludes all readers and other
/// writers. The lock is a verified one, so the poisoning failure mode of an
/// unverified lock cannot arise here.
pub struct SchemaFacade {
    lock: RwLock<Schema, SchemaPred>,
}

impl SchemaFacade {
    /// The schema text this facade was built around; every read observes it.
    pub closed spec fn text(&self) -> Seq<char> {
        self.lock.pred().text
    }

    pub fn new(schema: Schema) -> (f: Self)
        ensures
            f.text() == schema@,
    {
        let ghost pred = SchemaPred { text: schema@ };
        SchemaFacade { lock: RwLock::new(schema, Ghost(pred)) }
    }

    /// Acquires shared read access and returns a snapshot of the schema.
    /// The lock is held only while the snapshot is taken, never across a
    /// suspension point of the caller.
    pub fn read(&self) -> (r: Schema)
        ensures
            r@ == self.text(),
    {
        let handle = self.lock.acquire_read();
        let r = handle.borrow().clone();
        handle.release_read();
        r
    }

    /// Acquires exclusive access and replaces the stored schema, blocking
    /// out every reader and writer meanwhile. Mutation of the text itself is
    /// out of scope in this core, so the replacement must render the same
    /// text; this entry point fixes the access discipline for future
    /// writers.
    pub fn write(&self, schema: Schema)
        requires
            schema@ == self.text(),
    {
        let (_prev, handle) = self.lock.acquire_write();
        handle.release_write(schema);
    }
}

/// Concurrent reads agree: any two schemas returned by `read` on one facade
/// render the same text, so all concurrent readers observe the same
/// snapshot while no writer changes it.
pub proof fn lemma_reads_agree(f: &SchemaFacade, a: Schema, b: Schema)
    requires
        a@ == f.text(),
        b@ == f.text(),
    ensures
        a@ == b@,
{
}

} // verus!
