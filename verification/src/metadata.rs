//! Identifying metadata a plugin must declare before the host-facing entry
//! points may be generated: a social-platform identifier, a display name and
//! a version string.  The build step collects the declared `key = "value"`
//! pairs one at a time and then validates that the triple is complete.

use vstd::prelude::*;

verus! {

/// Why collecting or validating the declared metadata failed.
#[derive(Clone, Copy, Debug, PartialEq, Eq, Structural)]
pub enum MetadataError {
    /// A key other than `platform`, `name` or `version` was declared.
    UnsupportedProperty,
    /// At least one of `platform`, `name` or `version` was never declared.
    MissingAttribute,
    /// At least one of `platform`, `name` or `version` was declared empty.
    EmptyAttribute,
}

/// The metadata values collected so far; each stays absent until its key is
/// declared.
#[derive(Debug)]
pub struct Attributes {
    /// Value declared under the `platform` key.
    pub social_platform: Option<String>,
    /// Value declared under the `name` key.
    pub name: Option<String>,
    /// Value declared under the `version` key.
    pub version: Option<String>,
}

/// A complete, validated metadata triple; every field is non-empty.
#[derive(Debug)]
pub struct PluginMetadata {
    /// Identifier of the social platform the plugin integrates with.
    pub social_platform: String,
    /// Display name of the plugin.
    pub name: String,
    /// Version string of the plugin.
    pub version: String,
}

impl PluginMetadata {
    /// A metadata triple is fully specified when none of its strings is empty.
    pub open spec fn wf(&self) -> bool {
        &&& self.social_platform@.len() > 0
        &&& self.name@.len() > 0
        &&& self.version@.len() > 0
    }
}

impl Attributes {
    /// All three keys have been declared, each with a non-empty value.
    pub open spec fn complete(&self) -> bool {
        &&& self.social_platform matches Some(p) && p@.len() > 0
        &&& self.name matches Some(n) && n@.len() > 0
        &&& self.version matches Some(v) && v@.len() > 0
    }

    /// Starts with no key declared.
    pub fn new() -> (a: Attributes)
        ensures
            a.social_platform is None,
            a.name is None,
            a.version is None,
    {
        Attributes { social_platform: None, name: None, version: None }
    }

    /// Records one declared `key = "value"` pair, rejecting unknown keys.
    ///
    /// Recognized keys are exactly `platform`, `name` and `version`; a
    /// recognized key stores its value in the matching field and leaves the
    /// other two untouched.
    pub fn parse(&mut self, key: &String, value: String) -> (r: Result<(), MetadataError>)
        ensures
            key@ == "platform"@ ==> r is Ok && final(self).social_platform == Some(value)
                && final(self).name == old(self).name && final(self).version == old(self).version,
            key@ == "name"@ ==> r is Ok && final(self).name == Some(value)
                && final(self).social_platform == old(self).social_platform
                && final(self).version == old(self).version,
            key@ == "version"@ ==> r is Ok && final(self).version == Some(value)
                && final(self).social_platform == old(self).social_platform
                && final(self).name == old(self).name,
            key@ != "platform"@ && key@ != "name"@ && key@ != "version"@ ==> r == Err::<(),
                MetadataError,
            >(MetadataError::UnsupportedProperty) && *final(self) == *old(self),
    {
        proof {
            reveal_strlit("platform");
            reveal_strlit("name");
            reveal_strlit("version");
            assert("platform"@.len() == 8);
            assert("name"@.len() == 4);
            assert("version"@.len() == 7);
        }
        let platform_key = String::from_str("platform");
        let name_key = String::from_str("name");
        let version_key = String::from_str("version");
        if *key == platform_key {
            self.social_platform = Some(value);
            Ok(())
        } else if *key == name_key {
            self.name = Some(value);
            Ok(())
        } else if *key == version_key {
            self.version = Some(value);
            Ok(())
        } else {
            Err(MetadataError::UnsupportedProperty)
        }
    }

    /// Checks that all three keys were declared with non-empty values and, if
    /// so, produces the validated triple; the build step turns the error case
    /// into a diagnostic, so no entry point exists without full metadata.
    pub fn validate(self) -> (r: Result<PluginMetadata, MetadataError>)
        ensures
            r is Ok <==> self.complete(),
            self.complete() ==> r == Ok::<PluginMetadata, MetadataError>(
                PluginMetadata {
                    social_platform: self.social_platform.unwrap(),
                    name: self.name.unwrap(),
                    version: self.version.unwrap(),
                },
            ),
            self.social_platform is None || self.name is None || self.version is None ==> r
                == Err::<PluginMetadata, MetadataError>(MetadataError::MissingAttribute),
            r is Err ==> r == Err::<PluginMetadata, MetadataError>(MetadataError::MissingAttribute)
                || r == Err::<PluginMetadata, MetadataError>(MetadataError::EmptyAttribute),
            r is Ok ==> r.unwrap().wf(),
    {
        match (self.social_platform, self.name, self.version) {
            (Some(p), Some(n), Some(v)) => {
                if p.as_str().is_empty() || n.as_str().is_empty() || v.as_str().is_empty() {
                    Err(MetadataError::EmptyAttribute)
                } else {
                    Ok(PluginMetadata { social_platform: p, name: n, version: v })
                }
            },
            _ => Err(MetadataError::MissingAttribute),
        }
    }
}

impl Default for Attributes {
    /// Same starting point as `new`: no key declared yet.
    fn default() -> (a: Attributes)
        ensures
            a.social_platform is None,
            a.name is None,
            a.version is None,
    {
        Attributes { social_platform: None, name: None, version: None }
    }
}

/// Owned image of the host's plugin-information record: the three strings
/// the metadata query writes for the host.
pub struct PluginInfo {
    /// Identifier of the social platform the plugin integrates with.
    pub social_platform: String,
    /// Display name of the plugin.
    pub name: String,
    /// Version string of the plugin.
    pub version: String,
}

/// Populates the metadata record with exactly the three declared values.
/// It reads fixed metadata and nothing else, so it may be called any number
/// of times, before or after initialization, always with the same result.
pub fn get_info(meta: &PluginMetadata) -> (info: PluginInfo)
    ensures
        info.social_platform@ == meta.social_platform@,
        info.name@ == meta.name@,
        info.version@ == meta.version@,
{
    PluginInfo {
        social_platform: meta.social_platform.clone(),
        name: meta.name.clone(),
        version: meta.version.clone(),
    }
}

/// The metadata query is idempotent: any two records populated from the
/// same metadata hold identical text.
pub proof fn lemma_get_info_idempotent(meta: PluginMetadata, first: PluginInfo, second: PluginInfo)
    requires
        first.social_platform@ == meta.social_platform@,
        first.name@ == meta.name@,
        first.version@ == meta.version@,
        second.social_platform@ == meta.social_platform@,
        second.name@ == meta.name@,
        second.version@ == meta.version@,
    ensures
        first.social_platform@ == second.social_platform@,
        first.name@ == second.name@,
        first.version@ == second.version@,
{
}

} // verus!
