//! Entries of the detectable-application catalog.
use vstd::prelude::*;

verus! {

/// A developer credited on a catalog entry.
#[derive(Debug)]
pub struct Developer {
    pub id: String,
    pub name: String,
}

/// One executable by which an application is recognised. A `name` that
/// starts with `>` asks for `arguments` to be present on the command line.
#[derive(Debug)]
pub struct Executable {
    pub is_launcher: bool,
    pub name: String,
    pub os: String,
    pub arguments: Option<String>,
}

/// A publisher credited on a catalog entry.
#[derive(Debug)]
pub struct Publisher {
    pub id: String,
    pub name: String,
}

/// A store listing of a catalog entry.
#[derive(Debug)]
pub struct ThirdPartySku {
    pub distributor: String,
    pub id: Option<String>,
    pub sku: Option<String>,
}

/// A catalog entry; once detected it also carries the process id and the
/// millisecond time at which it was seen.
#[derive(Debug)]
pub struct DetectableActivity {
    pub bot_public: Option<bool>,
    pub bot_require_code_grant: Option<bool>,
    pub cover_image: Option<String>,
    pub description: Option<String>,
    pub developers: Option<Vec<Developer>>,
    pub executables: Option<Vec<Executable>>,
    pub flags: Option<i64>,
    pub guild_id: Option<String>,
    pub hook: bool,
    pub icon: Option<String>,
    pub id: String,
    pub name: String,
    pub publishers: Option<Vec<Publisher>>,
    pub rpc_origins: Option<Vec<String>>,
    pub splash: Option<String>,
    pub third_party_skus: Option<Vec<ThirdPartySku>>,
    pub type_field: Option<i64>,
    pub verify_key: Option<String>,
    pub primary_sku_id: Option<String>,
    pub slug: Option<String>,
    pub aliases: Option<Vec<String>>,
    pub overlay: Option<bool>,
    pub overlay_compatibility_hook: Option<bool>,
    pub privacy_policy_url: Option<String>,
    pub terms_of_service_url: Option<String>,
    pub eula_id: Option<String>,
    pub deeplink_uri: Option<String>,
    pub tags: Option<Vec<String>>,
    pub pid: Option<u64>,
    pub timestamp: Option<String>,
}

impl DetectableActivity {
    /// The two agree on every field of the catalog entry: all but the
    /// process id and the detection time. Lists are compared by contents.
    pub open spec fn same_catalog_fields(&self, o: &DetectableActivity) -> bool {
        &&& self.bot_public == o.bot_public
        &&& self.bot_require_code_grant == o.bot_require_code_grant
        &&& self.cover_image == o.cover_image
        &&& self.description == o.description
        &&& self.flags == o.flags
        &&& self.guild_id == o.guild_id
        &&& self.hook == o.hook
        &&& self.icon == o.icon
        &&& self.id == o.id
        &&& self.name == o.name
        &&& self.splash == o.splash
        &&& self.type_field == o.type_field
        &&& self.verify_key == o.verify_key
        &&& self.primary_sku_id == o.primary_sku_id
        &&& self.slug == o.slug
        &&& self.overlay == o.overlay
        &&& self.overlay_compatibility_hook == o.overlay_compatibility_hook
        &&& self.privacy_policy_url == o.privacy_policy_url
        &&& self.terms_of_service_url == o.terms_of_service_url
        &&& self.eula_id == o.eula_id
        &&& self.deeplink_uri == o.deeplink_uri
        &&& seq_of(self.developers) == seq_of(o.developers)
        &&& seq_of(self.executables) == seq_of(o.executables)
        &&& seq_of(self.publishers) == seq_of(o.publishers)
        &&& seq_of(self.rpc_origins) == seq_of(o.rpc_origins)
        &&& seq_of(self.third_party_skus) == seq_of(o.third_party_skus)
        &&& seq_of(self.aliases) == seq_of(o.aliases)
        &&& seq_of(self.tags) == seq_of(o.tags)
    }

    /// The two are the same entry with the same detection.
    pub open spec fn same_entry(&self, o: &DetectableActivity) -> bool {
        &&& self.same_catalog_fields(o)
        &&& self.pid == o.pid
        &&& self.timestamp == o.timestamp
    }

    /// The "nothing detected" entry: id `null`, empty name, `hook` false and
    /// every optional field absent.
    pub open spec fn is_blank_sentinel(&self) -> bool {
        &&& self.spec_is_sentinel()
        &&& self.name@.len() == 0
        &&& !self.hook
        &&& self.bot_public is None
        &&& self.bot_require_code_grant is None
        &&& self.cover_image is None
        &&& self.description is None
        &&& self.flags is None
        &&& self.guild_id is None
        &&& self.icon is None
        &&& self.splash is None
        &&& self.type_field is None
        &&& self.verify_key is None
        &&& self.primary_sku_id is None
        &&& self.slug is None
        &&& self.overlay is None
        &&& self.overlay_compatibility_hook is None
        &&& self.privacy_policy_url is None
        &&& self.terms_of_service_url is None
        &&& self.eula_id is None
        &&& self.deeplink_uri is None
        &&& self.developers is None
        &&& self.executables is None
        &&& self.publishers is None
        &&& self.rpc_origins is None
        &&& self.third_party_skus is None
        &&& self.aliases is None
        &&& self.tags is None
        &&& self.pid is None
        &&& self.timestamp is None
    }

    /// The entry that stands for "no tracked application is running".
    pub open spec fn spec_is_sentinel(&self) -> bool {
        self.id@ == "null"@
    }

    /// The "nothing detected" entry: id `null`, empty name, nothing else set.
    pub fn sentinel() -> (r: DetectableActivity)
        ensures
            r.is_blank_sentinel(),
    {
        proof {
            reveal_strlit("null");
        }
        DetectableActivity {
            bot_public: None,
            bot_require_code_grant: None,
            cover_image: None,
            description: None,
            developers: None,
            executables: None,
            flags: None,
            guild_id: None,
            hook: false,
            icon: None,
            id: "null".to_string(),
            name: String::new(),
            publishers: None,
            rpc_origins: None,
            splash: None,
            third_party_skus: None,
            type_field: None,
            verify_key: None,
            primary_sku_id: None,
            slug: None,
            aliases: None,
            overlay: None,
            overlay_compatibility_hook: None,
            privacy_policy_url: None,
            terms_of_service_url: None,
            eula_id: None,
            deeplink_uri: None,
            tags: None,
            pid: None,
            timestamp: None,
        }
    }
}

/// The contents of an optional list.
pub open spec fn seq_of<T>(o: Option<Vec<T>>) -> Option<Seq<T>> {
    match o {
        Some(v) => Some(v@),
        None => None,
    }
}

/// A copy of an optional list whose elements copy exactly.
fn copy_list<T: Clone + ExactCopy>(o: &Option<Vec<T>>) -> (r: Option<Vec<T>>)
    ensures
        seq_of(r) == seq_of(*o),
{
    match o {
        None => None,
        Some(v) => {
            let mut out: Vec<T> = Vec::new();
            let mut i: usize = 0;
            while i < v.len()
                invariant
                    i <= v@.len(),
                    out@ == v@.subrange(0, i as int),
                decreases v@.len() - i,
            {
                out.push(v[i].exact_copy());
                i = i + 1;
                assert(out@ =~= v@.subrange(0, i as int));
            }
            assert(v@.subrange(0, i as int) =~= v@);
            Some(out)
        },
    }
}

/// A value that can be copied into an equal one.
pub trait ExactCopy: Sized {
    fn exact_copy(&self) -> (r: Self)
        ensures
            r == *self;
}

impl ExactCopy for String {
    fn exact_copy(&self) -> (r: String) {
        self.clone()
    }
}

impl ExactCopy for Developer {
    fn exact_copy(&self) -> (r: Developer) {
        Developer { id: self.id.clone(), name: self.name.clone() }
    }
}

impl ExactCopy for Publisher {
    fn exact_copy(&self) -> (r: Publisher) {
        Publisher { id: self.id.clone(), name: self.name.clone() }
    }
}

impl ExactCopy for Executable {
    fn exact_copy(&self) -> (r: Executable) {
        Executable {
            is_launcher: self.is_launcher,
            name: self.name.clone(),
            os: self.os.clone(),
            arguments: self.arguments.clone(),
        }
    }
}

impl ExactCopy for ThirdPartySku {
    fn exact_copy(&self) -> (r: ThirdPartySku) {
        ThirdPartySku { distributor: self.distributor.clone(), id: self.id.clone(), sku: self.sku.clone() }
    }
}

impl Clone for Developer {
    fn clone(&self) -> (r: Self)
        ensures
            r == *self,
    {
        self.exact_copy()
    }
}

impl Clone for Publisher {
    fn clone(&self) -> (r: Self)
        ensures
            r == *self,
    {
        self.exact_copy()
    }
}

impl Clone for Executable {
    fn clone(&self) -> (r: Self)
        ensures
            r == *self,
    {
        self.exact_copy()
    }
}

impl Clone for ThirdPartySku {
    fn clone(&self) -> (r: Self)
        ensures
            r == *self,
    {
        self.exact_copy()
    }
}

impl Clone for DetectableActivity {
    fn clone(&self) -> (r: Self)
        ensures
            r.same_entry(self),
    {
        DetectableActivity {
            bot_public: self.bot_public,
            bot_require_code_grant: self.bot_require_code_grant,
            cover_image: self.cover_image.clone(),
            description: self.description.clone(),
            developers: copy_list(&self.developers),
            executables: copy_list(&self.executables),
            flags: self.flags,
            guild_id: self.guild_id.clone(),
            hook: self.hook,
            icon: self.icon.clone(),
            id: self.id.clone(),
            name: self.name.clone(),
            publishers: copy_list(&self.publishers),
            rpc_origins: copy_list(&self.rpc_origins),
            splash: self.splash.clone(),
            third_party_skus: copy_list(&self.third_party_skus),
            type_field: self.type_field,
            verify_key: self.verify_key.clone(),
            primary_sku_id: self.primary_sku_id.clone(),
            slug: self.slug.clone(),
            aliases: copy_list(&self.aliases),
            overlay: self.overlay,
            overlay_compatibility_hook: self.overlay_compatibility_hook,
            privacy_policy_url: self.privacy_policy_url.clone(),
            terms_of_service_url: self.terms_of_service_url.clone(),
            eula_id: self.eula_id.clone(),
            deeplink_uri: self.deeplink_uri.clone(),
            tags: copy_list(&self.tags),
            pid: self.pid,
            timestamp: self.timestamp.clone(),
        }
    }
}

} // verus!
