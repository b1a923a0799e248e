//! The asset handle registry: issues opaque handles for load requests and
//! tracks, per asset, whether its data has finished streaming in.
//!
//! Readiness is tracked as a small per-asset state machine
//! (`Loading -> Ready` or `Loading -> Failed`, both terminal), so that no
//! caller can read an asset's data before its completion was observed:
//! [`AssetRegistry::get`] returns the data only out of the `Ready` status.

use vstd::prelude::*;

verus! {

/// The status of one registered asset.
#[derive(PartialEq, Eq, Structural, Clone, Copy, Debug)]
pub enum AssetStatus {
    /// The load request was issued; completion has not been observed yet.
    Loading,
    /// A successful completion notification was observed; the data may be read.
    Ready,
    /// A failure notification was observed; the data will never arrive.
    Failed,
}

/// An opaque handle to one registered asset. Handles are issued by
/// [`AssetRegistry::register`] and index the registry that issued them.
#[derive(PartialEq, Eq, Structural, Clone, Copy, Debug)]
pub struct AssetHandle {
    /// Position of the asset in the issuing registry.
    pub id: usize,
}

/// What a completion notification reports for one asset.
#[derive(PartialEq, Eq, Structural, Clone, Copy, Debug)]
pub enum LoadOutcome {
    /// The asset's data arrived whole and was deserialized.
    Loaded,
    /// The load ended without data (missing or corrupt file).
    Errored,
}

/// One completion notification from the host's asynchronous loader,
/// observed by polling once per tick.
#[derive(PartialEq, Eq, Structural, Clone, Copy, Debug)]
pub struct CompletionEvent {
    /// The asset the notification is about.
    pub handle: AssetHandle,
    /// Whether the load succeeded.
    pub outcome: LoadOutcome,
}

/// One registry entry: the path the load request was issued for, and the
/// status of that load.
pub struct AssetEntry {
    /// The path handed to the host's loader.
    pub path: String,
    /// How far the load has come.
    pub status: AssetStatus,
}

/// The mathematical model of one registry entry.
pub struct EntryModel {
    /// The requested path.
    pub path: Seq<char>,
    /// How far the load has come.
    pub status: AssetStatus,
}

impl View for AssetEntry {
    type V = EntryModel;

    open spec fn view(&self) -> EntryModel {
        EntryModel { path: self.path@, status: self.status }
    }
}

/// The asset handle registry. A registry models a sequence of entries;
/// the handle issued for an entry is its position in that sequence.
pub struct AssetRegistry {
    entries: Vec<AssetEntry>,
}

/// The model of marking the asset at position `i` with the outcome `o`:
/// a `Loading` entry moves to `Ready` or `Failed`; a completed entry is
/// left as it is (duplicate notifications are ignored), and so is an
/// unknown position.
pub open spec fn mark(assets: Seq<EntryModel>, i: int, o: LoadOutcome) -> Seq<EntryModel> {
    if 0 <= i < assets.len() && assets[i].status == AssetStatus::Loading {
        assets.update(
            i,
            EntryModel {
                path: assets[i].path,
                status: if o == LoadOutcome::Loaded {
                    AssetStatus::Ready
                } else {
                    AssetStatus::Failed
                },
            },
        )
    } else {
        assets
    }
}

impl View for AssetRegistry {
    type V = Seq<EntryModel>;

    closed spec fn view(&self) -> Seq<EntryModel> {
        self.entries@.map_values(|e: AssetEntry| e@)
    }
}

impl AssetRegistry {
    /// A registry with no assets registered.
    pub fn new() -> (r: Self)
        ensures
            r@ == Seq::<EntryModel>::empty(),
    {
        let r = AssetRegistry { entries: Vec::new() };
        proof {
            assert(r@ =~= Seq::<EntryModel>::empty());
        }
        r
    }

    /// Issues a load request for the resource at `path` and returns its
    /// handle at once; completion is reported later by a
    /// [`CompletionEvent`]. The new entry starts out `Loading`.
    pub fn register(&mut self, path: &str) -> (h: AssetHandle)
        ensures
            h.id == old(self)@.len(),
            final(self)@ == old(self)@.push(
                EntryModel { path: path@, status: AssetStatus::Loading },
            ),
    {
        let h = AssetHandle { id: self.entries.len() };
        self.entries.push(AssetEntry { path: String::from_str(path), status: AssetStatus::Loading });
        proof {
            assert(self@ =~= old(self)@.push(
                EntryModel { path: path@, status: AssetStatus::Loading },
            ));
        }
        h
    }

    /// How many assets were registered.
    pub fn len(&self) -> (n: usize)
        ensures
            n == self@.len(),
    {
        self.entries.len()
    }

    /// Whether `h` names a registered asset whose data has arrived.
    pub fn is_ready(&self, h: &AssetHandle) -> (r: bool)
        ensures
            r == (h.id < self@.len() && self@[h.id as int].status == AssetStatus::Ready),
    {
        h.id < self.entries.len() && self.entries[h.id].status == AssetStatus::Ready
    }

    /// The status of the asset `h`, or `None` for a handle this registry
    /// never issued.
    pub fn status_of(&self, h: &AssetHandle) -> (s: Option<AssetStatus>)
        ensures
            s == if h.id < self@.len() {
                Some(self@[h.id as int].status)
            } else {
                None::<AssetStatus>
            },
    {
        if h.id < self.entries.len() {
            Some(self.entries[h.id].status)
        } else {
            None
        }
    }

    /// The resolved resource behind `h`, or `None` while it has not finished
    /// loading. `None` is not an error: it means "not yet", and the caller
    /// skips the dependent work until a later tick.
    pub fn get(&self, h: &AssetHandle) -> (r: Option<&String>)
        ensures
            r matches Some(p) ==> h.id < self@.len()
                && self@[h.id as int].status == AssetStatus::Ready
                && p@ == self@[h.id as int].path,
            r is None ==> !(h.id < self@.len()
                && self@[h.id as int].status == AssetStatus::Ready),
    {
        if h.id < self.entries.len() && self.entries[h.id].status == AssetStatus::Ready {
            Some(&self.entries[h.id].path)
        } else {
            None
        }
    }

    /// The path the asset `h` was registered under, or `None` for a handle
    /// this registry never issued. The path is configuration, not asset
    /// data, so it is readable in every status — the host needs it to
    /// issue the load request in the first place.
    pub fn path_of(&self, h: &AssetHandle) -> (r: Option<&String>)
        ensures
            r matches Some(p) ==> h.id < self@.len() && p@ == self@[h.id as int].path,
            r is None <==> h.id >= self@.len(),
    {
        if h.id < self.entries.len() {
            Some(&self.entries[h.id].path)
        } else {
            None
        }
    }

    /// Records one completion notification: the named entry moves out of
    /// `Loading` as the outcome says; duplicate notifications and handles
    /// this registry never issued change nothing.
    pub fn observe(&mut self, e: &CompletionEvent)
        ensures
            final(self)@ == mark(old(self)@, e.handle.id as int, e.outcome),
    {
        let i = e.handle.id;
        if i < self.entries.len() {
            if self.entries[i].status == AssetStatus::Loading {
                let status = if e.outcome == LoadOutcome::Loaded {
                    AssetStatus::Ready
                } else {
                    AssetStatus::Failed
                };
                self.entries[i].status = status;
                proof {
                    assert(self@ =~= mark(old(self)@, e.handle.id as int, e.outcome));
                }
            }
        }
    }
}

} // verus!
