//! The plugin descriptor: the identity and the features of a plugin.
use vstd::prelude::*;
use vstd::string::{StringExecFns, StringSliceAdditionalSpecFns};

use crate::plugin::Error;
use crate::text::{find_nul, first_nul, nul_free};

verus! {

/// Whether no string of `ss` holds a zero byte.
pub open spec fn all_nul_free(ss: Seq<Seq<u8>>) -> bool {
    forall|k: int| 0 <= k < ss.len() ==> nul_free(#[trigger] ss[k])
}

/// The index of the first string of `ss` that holds a zero byte.
pub open spec fn first_with_nul(ss: Seq<Seq<u8>>) -> int {
    choose|k: int|
        0 <= k < ss.len() && !nul_free(ss[k]) && forall|j: int| 0 <= j < k ==> nul_free(#[trigger] ss[j])
}

/// What a descriptor holds, as character sequences.
pub struct DescriptorView {
    pub id: Seq<char>,
    pub name: Seq<char>,
    pub vendor: Seq<char>,
    pub url: Seq<char>,
    pub manual_url: Seq<char>,
    pub support_url: Seq<char>,
    pub version: Seq<char>,
    pub description: Seq<char>,
    pub features: Seq<Seq<char>>,
}

/// The strings that describe a plugin. None of them holds a zero byte, so
/// each of them converts to a C string.
pub struct PluginDescriptor {
    id: String,
    name: String,
    vendor: String,
    url: String,
    manual_url: String,
    support_url: String,
    version: String,
    description: String,
    features: Vec<String>,
}

impl View for PluginDescriptor {
    type V = DescriptorView;

    closed spec fn view(&self) -> DescriptorView {
        DescriptorView {
            id: self.id@,
            name: self.name@,
            vendor: self.vendor@,
            url: self.url@,
            manual_url: self.manual_url@,
            support_url: self.support_url@,
            version: self.version@,
            description: self.description@,
            features: self.features@.map_values(|f: String| f@),
        }
    }
}

/// The strings of a description, in the order they are checked: the eight
/// fields, then the features.
pub open spec fn description_strings(fields: Seq<&str>, features: Seq<&str>) -> Seq<Seq<u8>> {
    (fields + features).map_values(|s: &str| s.spec_bytes())
}

fn owned(s: &str) -> (r: String)
    ensures
        r@ == s@,
{
    String::from_str(s)
}

fn owned_all(features: &Vec<&str>) -> (r: Vec<String>)
    ensures
        r@.map_values(|f: String| f@) == features@.map_values(|f: &str| f@),
{
    let mut r: Vec<String> = Vec::new();
    let mut k: usize = 0;
    while k < features.len()
        invariant
            k <= features@.len(),
            r@.len() == k,
            forall|j: int| 0 <= j < k ==> #[trigger] r@[j]@ == features@[j]@,
        decreases features.len() - k,
    {
        r.push(owned(features[k]));
        k = k + 1;
    }
    assert(r@.map_values(|f: String| f@) =~= features@.map_values(|f: &str| f@));
    r
}

/// The position of the first zero byte in the first string that holds one.
fn check_strings(all: &Vec<&str>) -> (r: Option<usize>)
    ensures
        ({
            let ss = all@.map_values(|s: &str| s.spec_bytes());
            &&& r is None <==> all_nul_free(ss)
            &&& r matches Some(p) ==> p == first_nul(ss[first_with_nul(ss)])
        }),
{
    let ghost ss = all@.map_values(|s: &str| s.spec_bytes());
    let mut i: usize = 0;
    while i < all.len()
        invariant
            ss == all@.map_values(|s: &str| s.spec_bytes()),
            i <= all@.len(),
            forall|j: int| 0 <= j < i ==> nul_free(#[trigger] ss[j]),
        decreases all.len() - i,
    {
        match find_nul(all[i]) {
            Some(p) => {
                proof {
                    let q = first_with_nul(ss);
                    assert(ss[i as int] == all@[i as int].spec_bytes());
                    assert(!nul_free(ss[i as int]));
                    assert(q == i) by {
                        if q < i {
                            assert(nul_free(ss[q]));
                        } else if q > i {
                            assert(nul_free(ss[i as int]));
                        }
                    }
                }
                return Some(p);
            },
            None => {},
        }
        i = i + 1;
    }
    None
}

impl PluginDescriptor {
    /// Describes a plugin. Each string must convert to a C string: the first
    /// one that holds a zero byte is reported with the byte's position.
    pub fn new(
        id: &str,
        name: &str,
        vendor: &str,
        url: &str,
        manual_url: &str,
        support_url: &str,
        version: &str,
        description: &str,
        features: &Vec<&str>,
    ) -> (r: Result<Self, Error>)
        ensures
            ({
                let ss = description_strings(
                    seq![id, name, vendor, url, manual_url, support_url, version, description],
                    features@,
                );
                &&& r is Ok <==> all_nul_free(ss)
                &&& r matches Err(e) ==> e == Error::NulError(
                    first_nul(ss[first_with_nul(ss)]) as usize,
                )
            }),
            r matches Ok(d) ==> d@ == (DescriptorView {
                id: id@,
                name: name@,
                vendor: vendor@,
                url: url@,
                manual_url: manual_url@,
                support_url: support_url@,
                version: version@,
                description: description@,
                features: features@.map_values(|f: &str| f@),
            }),
    {
        let mut all: Vec<&str> = vec![id, name, vendor, url, manual_url, support_url, version, description];
        let ghost fields = all@;
        let mut k: usize = 0;
        while k < features.len()
            invariant
                k <= features@.len(),
                all@ == fields + features@.subrange(0, k as int),
            decreases features.len() - k,
        {
            all.push(features[k]);
            k = k + 1;
            assert(all@ =~= fields + features@.subrange(0, k as int));
        }
        assert(all@ =~= fields + features@);
        if let Some(p) = check_strings(&all) {
            return Err(Error::NulError(p));
        }
        let owned_features = owned_all(features);
        Ok(PluginDescriptor {
            id: owned(id),
            name: owned(name),
            vendor: owned(vendor),
            url: owned(url),
            manual_url: owned(manual_url),
            support_url: owned(support_url),
            version: owned(version),
            description: owned(description),
            features: owned_features,
        })
    }

    pub fn plugin_id(&self) -> (r: &str)
        ensures
            r@ == self@.id,
    {
        self.id.as_str()
    }

    pub fn name(&self) -> (r: &str)
        ensures
            r@ == self@.name,
    {
        self.name.as_str()
    }

    pub fn vendor(&self) -> (r: &str)
        ensures
            r@ == self@.vendor,
    {
        self.vendor.as_str()
    }

    pub fn url(&self) -> (r: &str)
        ensures
            r@ == self@.url,
    {
        self.url.as_str()
    }

    pub fn manual_url(&self) -> (r: &str)
        ensures
            r@ == self@.manual_url,
    {
        self.manual_url.as_str()
    }

    pub fn support_url(&self) -> (r: &str)
        ensures
            r@ == self@.support_url,
    {
        self.support_url.as_str()
    }

    pub fn version(&self) -> (r: &str)
        ensures
            r@ == self@.version,
    {
        self.version.as_str()
    }

    pub fn description(&self) -> (r: &str)
        ensures
            r@ == self@.description,
    {
        self.description.as_str()
    }

    /// The feature keywords, in order.
    pub fn features(&self) -> (r: &Vec<String>)
        ensures
            r@.map_values(|f: String| f@) == self@.features,
    {
        &self.features
    }
}

} // verus!
