//! The plugin factory: the list of plugins a bundle offers, found by index or
//! by plugin id.
use vstd::prelude::*;

use crate::plugin;
use crate::text::str_eq;

verus! {

/// The plugins of a bundle, each with its plugin id. When two plugins share
/// an id, the later one is the one found by that id.
///
/// The ids are kept beside the plugins and searched from the last one back,
/// rather than in a hash map from id to index: vstd describes a `HashMap`
/// only for keys whose hashing it models, which `String` is not. Searching
/// from the end finds what a map filled in order would hold, where a later
/// plugin with the same id replaces an earlier one.
pub struct Factory<T> {
    ids: Vec<String>,
    plugins: Vec<T>,
}

impl<T> Factory<T> {
    #[verifier::type_invariant]
    spec fn inv(self) -> bool {
        &&& self.ids.len() == self.plugins.len()
        &&& self.plugins.len() <= u32::MAX
    }

    /// The plugin ids, in order.
    pub closed spec fn ids(&self) -> Seq<Seq<char>> {
        self.ids@.map_values(|s: String| s@)
    }

    /// The plugins, in order.
    pub closed spec fn plugins(&self) -> Seq<T> {
        self.plugins@
    }

    /// A factory over `plugins`, where `ids[i]` is the id of `plugins[i]`.
    pub fn new(ids: Vec<String>, plugins: Vec<T>) -> (r: Self)
        requires
            ids.len() == plugins.len(),
            plugins.len() <= u32::MAX,
        ensures
            r.ids() == ids@.map_values(|s: String| s@),
            r.plugins() == plugins@,
    {
        Factory { ids, plugins }
    }

    pub fn plugins_count(&self) -> (r: u32)
        ensures
            r == self.plugins().len(),
    {
        proof {
            use_type_invariant(self);
        }
        self.plugins.len() as u32
    }

    /// The plugin at `index`.
    pub fn descriptor(&self, index: u32) -> (r: Result<&T, Error>)
        ensures
            index < self.plugins().len() ==> (r matches Ok(p) && *p == self.plugins()[index as int]),
            index >= self.plugins().len() ==> r == Err::<&T, Error>(
                Error::IndexOutOfBounds(index),
            ),
    {
        proof {
            use_type_invariant(self);
        }
        if (index as usize) < self.plugins.len() {
            Ok(&self.plugins[index as usize])
        } else {
            Err(Error::IndexOutOfBounds(index))
        }
    }

    /// The plugin with the id `plugin_id`: the last one, if several have it.
    pub fn create_plugin(&self, plugin_id: &str) -> (r: Result<&T, Error>)
        ensures
            (exists|i: int| 0 <= i < self.ids().len() && self.ids()[i] == plugin_id@) <==> r is Ok,
            r is Err ==> r == Err::<&T, Error>(Error::PluginIdNotFound),
            r matches Ok(p) ==> exists|i: int|
                0 <= i < self.ids().len() && self.ids()[i] == plugin_id@ && *p == self.plugins()[i]
                    && forall|j: int| i < j < self.ids().len() ==> self.ids()[j] != plugin_id@,
    {
        proof {
            use_type_invariant(self);
        }
        let mut i: usize = self.ids.len();
        while i > 0
            invariant
                i <= self.ids@.len(),
                self.ids@.len() == self.plugins@.len(),
                forall|j: int| i <= j < self.ids@.len() ==> self.ids@[j]@ != plugin_id@,
            decreases i,
        {
            i = i - 1;
            if str_eq(self.ids[i].as_str(), plugin_id) {
                assert(self.ids()[i as int] == plugin_id@);
                return Ok(&self.plugins[i]);
            }
        }
        proof {
            assert forall|k: int| 0 <= k < self.ids().len() implies self.ids()[k] != plugin_id@ by {
                assert(self.ids()[k] == self.ids@[k]@);
            }
        }
        Err(Error::PluginIdNotFound)
    }
}

/// Errors of the plugin factory.
#[derive(Debug, Copy, Clone, PartialEq, Eq, Structural)]
pub enum Error {
    PluginIdNotFound,
    PluginDescriptor(plugin::Error),
    IndexOutOfBounds(u32),
}

} // verus!
