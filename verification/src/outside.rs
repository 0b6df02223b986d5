//! Declarations of the `yaml-edit` types that this crate carries through.
//!
//! Each is opaque to the verifier: a handle into a shared syntax tree.

use vstd::prelude::*;

verus! {

#[verifier::external_type_specification]
#[verifier::external_body]
pub struct ExDocument(yaml_edit::Document);

#[verifier::external_type_specification]
#[verifier::external_body]
pub struct ExYamlFile(yaml_edit::YamlFile);

#[verifier::external_type_specification]
#[verifier::external_body]
pub struct ExMapping(yaml_edit::Mapping);

#[verifier::external_type_specification]
#[verifier::external_body]
pub struct ExSequence(yaml_edit::Sequence);

#[verifier::external_type_specification]
#[verifier::external_body]
pub struct ExScalar(yaml_edit::Scalar);

#[verifier::external_type_specification]
#[verifier::external_body]
pub struct ExAlias(yaml_edit::Alias);

#[verifier::external_type_specification]
#[verifier::external_body]
pub struct ExTaggedNode(yaml_edit::TaggedNode);

#[verifier::external_type_specification]
#[verifier::external_body]
pub struct ExYamlNode(yaml_edit::YamlNode);

#[verifier::external_type_specification]
#[verifier::external_body]
pub struct ExMappingEntry(yaml_edit::MappingEntry);

#[verifier::external_type_specification]
#[verifier::external_body]
pub struct ExDirective(yaml_edit::Directive);

#[verifier::external_type_specification]
#[verifier::external_body]
pub struct ExYamlError(yaml_edit::YamlError);

#[verifier::external_type_specification]
#[verifier::external_body]
pub struct ExMergedView(yaml_edit::anchor_resolution::MergedView);

#[verifier::external_type_specification]
#[verifier::external_body]
pub struct ExMergedMapping<'a>(yaml_edit::anchor_resolution::MergedMapping<'a>);

#[verifier::external_type_specification]
#[verifier::external_body]
pub struct ExResolveError(yaml_edit::anchor_resolution::ResolveError);

} // verus!
