use vstd::prelude::*;
use crate::value::Error;
use vstd::string::StringExecFns;

verus! {

/// The name the system registry reports when no connection is loaded.
pub open spec fn sys_id() -> Seq<char> {
    "sysdb"@
}

/// The single-slot registry of the internal system database.  The slot
/// pairs the pooled-connection handle with whether its pool is still open;
/// a load replaces whatever occupied the slot, so the system database never
/// holds more than one pooled connection.
pub struct DbInstances {
    slot: Option<(u64, bool)>,
}

impl View for DbInstances {
    type V = Option<(u64, bool)>;

    closed spec fn view(&self) -> Option<(u64, bool)> {
        self.slot
    }
}

impl DbInstances {
    /// An empty system registry.
    pub fn new() -> (r: DbInstances)
        ensures
            r@ is None,
    {
        DbInstances { slot: None }
    }

    /// Installs a freshly established pooled connection in the slot,
    /// replacing any earlier one — live or closed — so a re-load always
    /// revives the system database.
    pub fn load(&mut self, handle: u64)
        ensures
            final(self)@ == Some((handle, true)),
    {
        self.slot = Some((handle, true));
    }

    /// Looks up the handle commands run against.  Fails with
    /// `DatabaseNotLoaded` for the system identifier when nothing has been
    /// loaded yet.  Whether the pool is still open is not checked here; use
    /// of a closed handle fails inside the pool layer.
    pub fn resolve(&self) -> (r: Result<u64, Error>)
        ensures
            self@ matches Some(p) ==> r == Ok::<u64, Error>(p.0),
            self@ is None ==> (r matches Err(e) && e matches Error::DatabaseNotLoaded(n) && n@
                == sys_id()),
    {
        match self.slot {
            Some(p) => Ok(p.0),
            None => Err(Error::DatabaseNotLoaded(String::from_str("sysdb"))),
        }
    }

    /// Whether the loaded pool is still open; `None` when nothing has been
    /// loaded yet.
    pub fn is_live(&self) -> (r: Option<bool>)
        ensures
            self@ matches Some(p) ==> r == Some(p.1),
            self@ is None ==> r is None,
    {
        match self.slot {
            Some(p) => Some(p.1),
            None => None,
        }
    }

    /// Marks the loaded pool closed and hands its handle back so the caller
    /// can tear it down.  The slot stays occupied: a later lookup still
    /// resolves, and failure then surfaces from the closed pool.
    pub fn close(&mut self) -> (r: Result<u64, Error>)
        ensures
            old(self)@ matches Some(p) ==> r == Ok::<u64, Error>(p.0) && final(self)@ == Some(
                (p.0, false)),
            old(self)@ is None ==> (r matches Err(e) && e matches Error::DatabaseNotLoaded(n) && n@
                == sys_id() && final(self)@ is None),
    {
        match self.slot {
            Some(p) => {
                self.slot = Some((p.0, false));
                Ok(p.0)
            },
            None => Err(Error::DatabaseNotLoaded(String::from_str("sysdb"))),
        }
    }
}

} // verus!
