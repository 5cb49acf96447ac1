//! How a kind of custom resource is known to the API server.

use vstd::prelude::*;

verus! {

/// The API group of every custom resource of the operator.
pub const API_GROUP: &'static str = "streamline.io";

/// The names of a kind of custom resource.
#[derive(Debug, PartialEq, Eq)]
pub struct ResourceNames {
    /// Kind, as manifests write it
    pub kind: String,
    /// Plural, as API paths write it
    pub plural: String,
    /// Short name for command lines
    pub short_name: String,
}

/// What a [`ResourceNames`] holds, over characters and sequences.
#[verifier::ext_equal]
pub struct ResourceNamesView {
    pub kind: Seq<char>,
    pub plural: Seq<char>,
    pub short_name: Seq<char>,
}

impl DeepView for ResourceNames {
    type V = ResourceNamesView;

    open spec fn deep_view(&self) -> ResourceNamesView {
        ResourceNamesView {
            kind: self.kind@,
            plural: self.plural@,
            short_name: self.short_name@,
        }
    }
}

/// Where a kind of custom resource stands in the API.
#[derive(Debug, PartialEq, Eq)]
pub struct ResourceDefinitionSpec {
    /// API group
    pub group: String,
    /// API version
    pub version: String,
    /// Names of the kind
    pub names: ResourceNames,
    /// Whether its objects live in a namespace
    pub namespaced: bool,
}

/// What a [`ResourceDefinitionSpec`] holds, over characters and sequences.
#[verifier::ext_equal]
pub struct ResourceDefinitionSpecView {
    pub group: Seq<char>,
    pub version: Seq<char>,
    pub names: ResourceNamesView,
    pub namespaced: bool,
}

impl DeepView for ResourceDefinitionSpec {
    type V = ResourceDefinitionSpecView;

    open spec fn deep_view(&self) -> ResourceDefinitionSpecView {
        ResourceDefinitionSpecView {
            group: self.group@,
            version: self.version@,
            names: self.names.deep_view(),
            namespaced: self.namespaced,
        }
    }
}

/// The definition of a kind of custom resource, without its schema.
#[derive(Debug, PartialEq, Eq)]
pub struct ResourceDefinition {
    pub spec: ResourceDefinitionSpec,
}

/// What a [`ResourceDefinition`] holds, over characters and sequences.
#[verifier::ext_equal]
pub struct ResourceDefinitionView {
    pub spec: ResourceDefinitionSpecView,
}

impl DeepView for ResourceDefinition {
    type V = ResourceDefinitionView;

    open spec fn deep_view(&self) -> ResourceDefinitionView {
        ResourceDefinitionView {
            spec: self.spec.deep_view(),
        }
    }
}

/// The definition of a namespaced kind of the operator's group.
pub open spec fn definition_of(
    kind: Seq<char>,
    plural: Seq<char>,
    short_name: Seq<char>,
) -> ResourceDefinitionView {
    ResourceDefinitionView {
        spec: ResourceDefinitionSpecView {
            group: API_GROUP@,
            version: "v1alpha1"@,
            names: ResourceNamesView { kind, plural, short_name },
            namespaced: true,
        },
    }
}

/// Build the definition of a namespaced kind of the operator's group.
pub fn define(kind: &str, plural: &str, short_name: &str) -> (definition: ResourceDefinition)
    ensures
        definition.deep_view() == definition_of(kind@, plural@, short_name@),
{
    ResourceDefinition {
        spec: ResourceDefinitionSpec {
            group: API_GROUP.to_owned(),
            version: "v1alpha1".to_owned(),
            names: ResourceNames {
                kind: kind.to_owned(),
                plural: plural.to_owned(),
                short_name: short_name.to_owned(),
            },
            namespaced: true,
        },
    }
}

} // verus!
