//! The structure messages of the statistical-data domain, as far as the
//! library holds them: plain records of what a service describes. They carry
//! no behaviour.

use std::collections::HashMap;
use vstd::prelude::*;

verus! {

/// `serde_json::Value`: a JSON value of any shape, carried as it is.
#[verifier::external_type_specification]
#[verifier::external_body]
pub struct ExValue(serde_json::Value);

/// agencyScheme provides the details of an agency scheme, in which agencies are described.
///
/// AgencySchemeType defines a specific type of organisation scheme which contains only
/// maintenance agencies. The agency scheme maintained by a particular maintenance agency is
/// always provided a fixed identifier and version, and is never final. Therefore, agencies
/// can be added or removed without have to version the scheme. Agencies schemes have no
/// hierarchy, meaning that no agency may define a relationship with another agency in the
/// scheme. In fact, the actual parent agency for an agency in a scheme is the agency which
/// defines the scheme.
///
/// MaintainableType is an abstract base type for all maintainable objects.
///
/// NameableType is an abstract base type for all nameable objects.
///
/// IdentifiableType is an abstract base type for all identifiable objects.
///
/// AnnotableType is an abstract base type used for all annotable artefacts. Any type that
/// provides for annotations should extend this type.
#[derive(Debug)]
pub struct AgencySchemeTypeElement {
    pub id: String,
    pub agency_id: String,
    pub name: String,
    pub version: Option<String>,
    pub annotations: Option<Vec<AnnotationType>>,
    /// Links field is an array of link objects. Also used to specify the URI or the URN to
    /// itself. If appropriate, a collection of links to additional external resources.
    pub links: Option<Vec<Link>>,
    pub description: Option<String>,
    pub descriptions: Option<HashMap<String, Option<serde_json::Value>>>,
    pub names: Option<HashMap<String, Option<serde_json::Value>>>,
    pub is_external_reference: Option<bool>,
    pub is_final: Option<bool>,
    pub valid_from: Option<String>,
    pub valid_to: Option<String>,
    pub agencies: Option<Vec<AgencyType>>,
    pub is_partial: Option<bool>,
}

/// Agency is an organisation which maintains structural metadata such as statistical
/// classifications, glossaries, data structure definitions, and metadata structure
/// definitions..
///
/// AgencyType defines the structure of an agency description. The contacts defined for the
/// organisation are specific to the agency role the organisation is serving.
///
/// NameableType is an abstract base type for all nameable objects with NCNameID.
///
/// IdentifiableType is an abstract base type for all identifiable objects.
///
/// AnnotableType is an abstract base type used for all annotable artefacts. Any type that
/// provides for annotations should extend this type.
#[derive(Debug)]
pub struct AgencyType {
    pub name: String,
    pub id: Option<String>,
    pub annotations: Option<Vec<AnnotationType>>,
    /// Links field is an array of link objects. Also used to specify the URI or the URN to
    /// itself. If appropriate, a collection of links to additional external resources.
    pub links: Option<Vec<Link>>,
    pub description: Option<String>,
    pub descriptions: Option<HashMap<String, Option<serde_json::Value>>>,
    pub names: Option<HashMap<String, Option<serde_json::Value>>>,
    pub contacts: Option<Vec<ContactType>>,
}

/// Annotations is a reusable element the provides for a collection of annotations. It has
/// been made global so that restrictions of types that extend AnnotatableType my reference
/// it.
///
/// AnnotationType provides for non-documentation notes and annotations to be embedded in
/// data and structure messages. It provides optional fields for providing a title, a type
/// description, a URI, and the text of the annotation.
#[derive(Debug)]
pub struct AnnotationType {
    /// Non-standard identification of an annotation.
    pub id: Option<String>,
    /// Links field is an array of link objects. Also used to specify the Annotation URL which
    /// points to an external resource which may contain or supplement the annotation (using
    /// 'self' as relationship). If a specific behavior is desired, an annotation type should be
    /// defined which specifies the use of this field more exactly. If appropriate, a collection
    /// of links to additional external resources.
    pub links: Option<Vec<Link>>,
    /// AnnotationText holds a language-specific string containing the text of the annotation.
    pub text: Option<String>,
    /// AnnotationText holds a language-specific string containing the text of the annotation.
    pub texts: Option<HashMap<String, Option<serde_json::Value>>>,
    /// AnnotationTitle provides a title for the annotation.
    pub title: Option<String>,
    /// AnnotationType is used to distinguish between annotations designed to support various
    /// uses. The types are not enumerated, as these can be specified by the user or creator of
    /// the annotations. The definitions and use of annotation types should be documented by
    /// their creator.
    pub annotation_type_type: Option<String>,
}

/// Links field is an array of link objects. Also used to specify the Annotation URL which
/// points to an external resource which may contain or supplement the annotation (using
/// 'self' as relationship). If a specific behavior is desired, an annotation type should be
/// defined which specifies the use of this field more exactly. If appropriate, a collection
/// of links to additional external resources.
///
/// Links field is an array of link objects. If appropriate, a collection of links to
/// additional external resources for the header.
#[derive(Debug)]
pub struct Link {
    pub href: Option<String>,
    /// The natural language of the external link, the same as used in the HTTP Accept-Language
    /// request header.
    pub hreflang: Option<String>,
    /// Relationship of the object to the external resource. See semantics below. Use 'self' to
    /// indicate the urn to the parent object.
    pub rel: String,
    pub title: Option<String>,
    pub titles: Option<HashMap<String, Option<serde_json::Value>>>,
    /// A hint about the type of representation returned by the link.
    pub link_type: Option<String>,
    /// The uri attribute holds a URI that contains a link to additional information about the
    /// resource, such as a web page. This uri is not an SDMX resource.
    pub uri: Option<String>,
    /// The urn holds a valid SDMX Registry URN (see SDMX Registry Specification for details).
    pub urn: Option<String>,
}

/// ContactType describes the structure of a contact's details.
#[derive(Debug)]
pub struct ContactType {
    /// Department is a humain-readable designation of the organisational structure by a
    /// linguistic expression, within which the contact person works.
    pub department: Option<String>,
    /// Department is a humain-readable designation of the organisational structure by a
    /// linguistic expression, within which the contact person works.
    pub departments: Option<HashMap<String, Option<serde_json::Value>>>,
    pub emails: Option<Vec<String>>,
    pub faxes: Option<Vec<String>>,
    /// Name contains a humain-readable name for the contact.
    pub name: Option<String>,
    /// Name contains a humain-readable name for the contact.
    pub names: Option<HashMap<String, Option<serde_json::Value>>>,
    /// Role is the humain-readable responsibility of the contact person with respect to the
    /// object for which this person is the contact.
    pub role: Option<String>,
    /// Role is the humain-readable responsibility of the contact person with respect to the
    /// object for which this person is the contact.
    pub roles: Option<HashMap<String, Option<serde_json::Value>>>,
    pub telephones: Option<Vec<String>>,
    pub uris: Option<Vec<String>>,
    pub x400_s: Option<Vec<String>>,
}

/// attachmentConstraint describes sub sets of the content of a data or metadata set in terms
/// of the content regions or in terms of the set of key combinations to which attributes or
/// reference metadata (as defined by structure definitions) may be attached.
///
/// AttachmentConstraintType describes the details of an attachment constraint by defining
/// the data or metadata key sets or component regions that attributes or reference metadata
/// may be attached in the constraint attachment objects.
///
/// MaintainableType is an abstract base type for all maintainable objects.
///
/// NameableType is an abstract base type for all nameable objects.
///
/// IdentifiableType is an abstract base type for all identifiable objects.
///
/// AnnotableType is an abstract base type used for all annotable artefacts. Any type that
/// provides for annotations should extend this type.
#[derive(Debug)]
pub struct AttachmentConstraintTypeElement {
    pub id: String,
    pub agency_id: String,
    pub name: String,
    pub version: Option<String>,
    pub annotations: Option<Vec<AnnotationType>>,
    /// Links field is an array of link objects. Also used to specify the URI or the URN to
    /// itself. If appropriate, a collection of links to additional external resources.
    pub links: Option<Vec<Link>>,
    pub description: Option<String>,
    pub descriptions: Option<HashMap<String, Option<serde_json::Value>>>,
    pub names: Option<HashMap<String, Option<serde_json::Value>>>,
    pub is_external_reference: Option<bool>,
    pub is_final: Option<bool>,
    pub valid_from: Option<String>,
    pub valid_to: Option<String>,
    pub constraint_attachment: Option<AttachmentConstraintAttachmentType>,
    pub data_key_sets: Option<Vec<DataKeySetType>>,
    pub metadata_key_sets: Option<Vec<MetadataKeySetType>>,
}

/// AttachmentConstraintAttachmentType defines the structure for specifying the object to
/// which an attachment constraints applies.
#[derive(Debug)]
pub struct AttachmentConstraintAttachmentType {
    pub dataflows: Option<Vec<String>>,
    pub data_sets: Option<Vec<SetReferenceType>>,
    pub data_structures: Option<Vec<String>>,
    pub metadataflows: Option<Vec<String>>,
    pub metadata_sets: Option<Vec<SetReferenceType>>,
    pub metadata_structures: Option<Vec<String>>,
    pub provision_agreements: Option<Vec<String>>,
    pub simple_data_sources: Option<Vec<String>>,
}

/// DataSet is a urn reference to a data set to which the constraint is attached. Multiple
/// instance can only be used if they have the same underlying structure.
///
/// SetReferenceType defines the structure of a reference to a data/metadata set. A full
/// reference to a data provider and the identifier for the data set must be provided. Note
/// that this is not derived from the base reference structure since data/metadata sets are
/// not technically identifiable.
///
/// MetadataSet is a urn reference to a metadata set to which the constraint is attached.
/// Multiple instance can only be used if they have the same underlying structure.
///
/// dataSet is a urn reference to a data set to which the constraint is attached.
///
/// metadataSet is a urn reference to a metadata set to which the constraint is attached.
#[derive(Debug)]
pub struct SetReferenceType {
    /// DataProvider is a urn reference to a the provider of the data/metadata set.
    pub data_provider: String,
    /// ID contains the identifier of the data/metadata set being referenced.
    pub id: String,
}

/// DataKeySetType defines a collection of full or partial data keys (dimension values).
///
/// DataKeySet defines a collection of full or partial data keys.
#[derive(Debug)]
pub struct DataKeySetType {
    pub is_included: bool,
    pub keys: Vec<DataKeyType>,
}

/// Key contains a set of dimension values which identify a full set of data.
///
/// DataKeyType is a region which defines a distinct full or partial data key. The key
/// consists of a set of values, each referencing a dimension and providing a single value
/// for that dimension. The purpose of the key is to define a subset of a data set (i.e. the
/// observed value and data attribute) which have the dimension values provided in this
/// definition. Any dimension not stated explicitly in this key is assumed to be wild carded,
/// thus allowing for the definition of partial data keys.
#[derive(Debug)]
pub struct DataKeyType {
    pub key_values: Vec<DataKeyValueType>,
}

/// DataKeyValueType is a type for providing a dimension value for the purpose of defining a
/// distinct data key. Only a single value can be provided for the dimension.
#[derive(Debug)]
pub struct DataKeyValueType {
    pub id: String,
    pub value: String,
}

/// MetadataKeySetType defines a collection of metadata keys (identifier component values).
///
/// MetadataKeySet defines a collection of metadata keys.
#[derive(Debug)]
pub struct MetadataKeySetType {
    pub is_included: bool,
    pub keys: Vec<MetadataKeyType>,
}

/// Key contains a set of target object values for a specified report structure which serve
/// to identify which object reference metadata conforming to the specified report structure
/// is available for.
///
/// MetadataKeyType is a region which defines a distinct full or partial metadata key. The
/// key consists of a set of values, each referencing a target object for the metadata target
/// referenced in the metadataTarget attribute, which must be defined in the report structure
/// referenced in the report attribute. Each target object can be assigned a single value. If
/// an target object from the reference metadata target is not included in this key, the
/// value of that is assumed to be all known objects for a reference target object, all
/// possible keys for a key descriptor values target object, or all dates for report period
/// target object. The purpose of this key reference a metadata conforming to a particular
/// report structure for given object or set of objects.
#[derive(Debug)]
pub struct MetadataKeyType {
    pub key_values: Vec<MetadataKeyValueType>,
    pub metadata_target: String,
    pub report: String,
}

/// MetadataKeyValueType is a type for providing a target object value for the purpose of
/// defining a distinct metadata key. Only a single value can be provided for the target
/// object.
#[derive(Debug)]
pub struct MetadataKeyValueType {
    pub data_key: Option<DataKeyType>,
    pub data_set: Option<SetReferenceType>,
    pub id: String,
    /// Urn reference to any object. The type of object actually referenced can be determined
    /// from the URN.
    pub object: Option<String>,
    pub value: Option<String>,
}

/// categorisation allows for the association of an identifiable object to a category,
/// providing for the classifications of the reference identifiable object. This must either
/// contain the full details of the categorisation, or provide a name and identification
/// information and reference the full details from an external structure document or
/// registry service.
///
/// CategorisationType defines the structure for a categorisation. A source object is
/// referenced via an object reference and the target category is referenced via the target
/// category.
///
/// MaintainableType is an abstract base type for all maintainable objects.
///
/// NameableType is an abstract base type for all nameable objects.
///
/// IdentifiableType is an abstract base type for all identifiable objects.
///
/// AnnotableType is an abstract base type used for all annotable artefacts. Any type that
/// provides for annotations should extend this type.
#[derive(Debug)]
pub struct CategorisationTypeElement {
    pub id: String,
    pub agency_id: String,
    pub name: String,
    pub version: Option<String>,
    pub annotations: Option<Vec<AnnotationType>>,
    /// Links field is an array of link objects. Also used to specify the URI or the URN to
    /// itself. If appropriate, a collection of links to additional external resources.
    pub links: Option<Vec<Link>>,
    pub description: Option<String>,
    pub descriptions: Option<HashMap<String, Option<serde_json::Value>>>,
    pub names: Option<HashMap<String, Option<serde_json::Value>>>,
    pub is_external_reference: Option<bool>,
    pub is_final: Option<bool>,
    pub valid_from: Option<String>,
    pub valid_to: Option<String>,
    /// Source is a urn reference to an object to be categorized.
    pub source: Option<String>,
    /// Target is a urn reference to the category that the referenced object is to be mapped to.
    pub target: Option<String>,
}

/// categoryScheme provides the details of a category scheme, which is the descriptive
/// information for an arrangement or division of categories into groups based on
/// characteristics, which the objects have in common. This provides for a simple, leveled
/// hierarchy or categories.
///
/// CategorySchemeType describes the structure of a category scheme. A category scheme is the
/// descriptive information for an arrangement or division of categories into groups based on
/// characteristics, which the objects have in common. This provides for a simple, leveled
/// hierarchy or categories.
///
/// MaintainableType is an abstract base type for all maintainable objects with NCNameID.
///
/// NameableType is an abstract base type for all nameable objects with NCNameID.
///
/// IdentifiableType is an abstract base type for all identifiable objects.
///
/// AnnotableType is an abstract base type used for all annotable artefacts. Any type that
/// provides for annotations should extend this type.
#[derive(Debug)]
pub struct CategorySchemeType {
    pub id: String,
    pub agency_id: String,
    pub name: String,
    pub version: Option<String>,
    pub annotations: Option<Vec<AnnotationType>>,
    /// Links field is an array of link objects. Also used to specify the URI or the URN to
    /// itself. If appropriate, a collection of links to additional external resources.
    pub links: Option<Vec<Link>>,
    pub description: Option<String>,
    pub descriptions: Option<HashMap<String, Option<serde_json::Value>>>,
    pub names: Option<HashMap<String, Option<serde_json::Value>>>,
    pub is_external_reference: Option<bool>,
    pub is_final: Option<bool>,
    pub valid_from: Option<String>,
    pub valid_to: Option<String>,
    pub categories: Option<Vec<CategoryTypeElement>>,
    pub is_partial: Option<bool>,
}

/// Category represents a set of nested categories which describe a simple classification
/// hierarchy.
///
/// CategoryType describes the details of a category. A category is defined as an item at any
/// level in a classification. The Category element represents a set of nested categories
/// which are child categories.
///
/// NameableType is an abstract base type for all nameable objects.
///
/// IdentifiableType is an abstract base type for all identifiable objects.
///
/// AnnotableType is an abstract base type used for all annotable artefacts. Any type that
/// provides for annotations should extend this type.
#[derive(Debug)]
pub struct CategoryTypeElement {
    pub name: String,
    pub id: Option<String>,
    pub annotations: Option<Vec<AnnotationType>>,
    /// Links field is an array of link objects. Also used to specify the URI or the URN to
    /// itself. If appropriate, a collection of links to additional external resources.
    pub links: Option<Vec<Link>>,
    pub description: Option<String>,
    pub descriptions: Option<HashMap<String, Option<serde_json::Value>>>,
    pub names: Option<HashMap<String, Option<serde_json::Value>>>,
    pub categories: Option<Vec<CategoryTypeElement>>,
}

/// codelist provides the details of a code list, which is defined as a list from which some
/// statistical concepts (coded concepts) take their values.
///
/// CodelistType defines the structure of a codelist. A codelist is defined as a list from
/// which some statistical concepts (coded concepts) take their values.
///
/// MaintainableType is an abstract base type for all maintainable objects with NCNameID.
///
/// NameableType is an abstract base type for all nameable objects with NCNameID.
///
/// IdentifiableType is an abstract base type for all identifiable objects.
///
/// AnnotableType is an abstract base type used for all annotable artefacts. Any type that
/// provides for annotations should extend this type.
#[derive(Debug)]
pub struct CodelistType {
    pub id: String,
    pub agency_id: String,
    pub name: String,
    pub version: Option<String>,
    pub annotations: Option<Vec<AnnotationType>>,
    /// Links field is an array of link objects. Also used to specify the URI or the URN to
    /// itself. If appropriate, a collection of links to additional external resources.
    pub links: Option<Vec<Link>>,
    pub description: Option<String>,
    pub descriptions: Option<HashMap<String, Option<serde_json::Value>>>,
    pub names: Option<HashMap<String, Option<serde_json::Value>>>,
    pub is_external_reference: Option<bool>,
    pub is_final: Option<bool>,
    pub valid_from: Option<String>,
    pub valid_to: Option<String>,
    pub codes: Option<Vec<CodeTypeElement>>,
    pub is_partial: Option<bool>,
}

/// Code describes a code in a codelist. In addition to the identification and description of
/// the code, basic presentational information is also available. Presentational information
/// not present may be added through the use of annotations.
///
/// CodeType describes the structure of a code. A code is defined as a language independent
/// set of letters, numbers or symbols that represent a concept whose meaning is described in
/// a natural language. Presentational information not present may be added through the use
/// of annotations.
///
/// NameableType is an abstract base type for all nameable objects.
///
/// IdentifiableType is an abstract base type for all identifiable objects.
///
/// AnnotableType is an abstract base type used for all annotable artefacts. Any type that
/// provides for annotations should extend this type.
#[derive(Debug)]
pub struct CodeTypeElement {
    pub name: String,
    pub id: Option<String>,
    pub annotations: Option<Vec<AnnotationType>>,
    /// Links field is an array of link objects. Also used to specify the URI or the URN to
    /// itself. If appropriate, a collection of links to additional external resources.
    pub links: Option<Vec<Link>>,
    pub description: Option<String>,
    pub descriptions: Option<HashMap<String, Option<serde_json::Value>>>,
    pub names: Option<HashMap<String, Option<serde_json::Value>>>,
    /// Parent provides the ability to describe simple hierarchies within a single codelist, by
    /// referencing the id value of another code in the same codelist.
    pub parent: Option<String>,
}

/// CodededTextFormatType is a restricted version of the SimpleComponentTextFormatType that
/// only allows factets and text types applicable to codes. Although the time facets permit
/// any value, an actual code identifier does not support the necessary characters for time.
/// Therefore these facets should not contain time in their values.
#[derive(Debug)]
pub struct CodededTextFormatType {
    pub end_time: Option<String>,
    pub end_value: Option<i64>,
    pub interval: Option<i64>,
    pub is_sequence: Option<bool>,
    pub max_length: Option<i64>,
    pub max_value: Option<i64>,
    pub min_length: Option<i64>,
    pub min_value: Option<i64>,
    pub pattern: Option<String>,
    pub start_time: Option<String>,
    pub start_value: Option<i64>,
    pub text_type: Option<CodeDataType>,
    pub time_interval: Option<String>,
}

/// contentConstraint specifies a sub set of the definition of the allowable or available
/// content of a data or metadata set in terms of the content or in terms of the set of key
/// combinations.
///
/// ContentConstraintType describes the details of a content constraint by defining the
/// content regions, key sets, or release information for the constraint attachment objects.
/// Note that if the constraint is for a data provider, then only release calendar
/// information is relevant, as there is no reliable way of determining which data structure
/// is being used to frame constraints in terms of cube regions or key sets.
///
/// MaintainableType is an abstract base type for all maintainable objects.
///
/// NameableType is an abstract base type for all nameable objects.
///
/// IdentifiableType is an abstract base type for all identifiable objects.
///
/// AnnotableType is an abstract base type used for all annotable artefacts. Any type that
/// provides for annotations should extend this type.
#[derive(Debug)]
pub struct ContentConstraintTypeElement {
    pub id: String,
    pub agency_id: String,
    pub name: String,
    pub version: Option<String>,
    pub annotations: Option<Vec<AnnotationType>>,
    /// Links field is an array of link objects. Also used to specify the URI or the URN to
    /// itself. If appropriate, a collection of links to additional external resources.
    pub links: Option<Vec<Link>>,
    pub description: Option<String>,
    pub descriptions: Option<HashMap<String, Option<serde_json::Value>>>,
    pub names: Option<HashMap<String, Option<serde_json::Value>>>,
    pub is_external_reference: Option<bool>,
    pub is_final: Option<bool>,
    pub valid_from: Option<String>,
    pub valid_to: Option<String>,
    /// ConstraintAttachment describes the collection of constrainable artefacts that the
    /// constraint is attached to.
    pub constraint_attachment: Option<ContentConstraintAttachmentType>,
    pub cube_regions: Option<Vec<CubeRegionType>>,
    pub data_key_sets: Option<Vec<DataKeySetType>>,
    pub metadata_key_sets: Option<Vec<MetadataKeySetType>>,
    pub metadata_target_regions: Option<Vec<MetadataTargetRegionType>>,
    /// ReferencePeriod is used to report start date and end date constraints.
    pub reference_period: Option<ReferencePeriodType>,
    /// ReleaseCalendar defines dates on which the constrained data is to be made available.
    pub release_calendar: Option<ReleaseCalendarType>,
    pub type_type: Option<ContentConstraintTypeCodeType>,
}

/// ConstraintAttachment describes the collection of constrainable artefacts that the
/// constraint is attached to.
///
/// ContentConstraintAttachmentType defines the structure for specifying the target object(s)
/// of a content constraint.
#[derive(Debug)]
pub struct ContentConstraintAttachmentType {
    pub dataflows: Option<Vec<String>>,
    /// dataProvider is a urn reference to a the provider of the data/metadata set to which the
    /// constraint is attached. If this is used, then only the release calendar is relevant..
    pub data_provider: Option<String>,
    /// dataSet is a urn reference to a data set to which the constraint is attached.
    pub data_set: Option<SetReferenceType>,
    pub data_structures: Option<Vec<String>>,
    pub metadataflows: Option<Vec<String>>,
    /// metadataSet is a urn reference to a metadata set to which the constraint is attached.
    pub metadata_set: Option<SetReferenceType>,
    pub metadata_structures: Option<Vec<String>>,
    pub provision_agreements: Option<Vec<String>>,
    pub queryable_data_sources: Option<Vec<QueryableDataSourceType>>,
    /// simpleDataSource describes a simple data source, which is a URL of a SDMX-ML data or
    /// metadata message.
    pub simple_data_source: Option<String>,
}

/// queryableDataSource describes a queryable data source to which the constraint is
/// attached.
///
/// QueryableDataSourceType describes a data source which accepts an standard SDMX Query
/// message and responds appropriately.
#[derive(Debug)]
pub struct QueryableDataSourceType {
    /// DataURL contains the URL of the data source.
    pub data_url: String,
    pub is_rest_datasource: bool,
    pub is_web_service_datasource: bool,
    /// WADLURL provides the location of a WADL instance on the internet which describes the REST
    /// protocol of the queryable data source.
    pub wadl_url: Option<String>,
    /// WSDLURL provides the location of a WSDL instance on the internet which describes the
    /// queryable data source.
    pub wsdl_url: Option<String>,
}

/// CubeRegion describes a set of dimension values which define a region and attributes which
/// relate to the region for the purpose of describing a constraint.
///
/// CubeRegionType defines the structure of a data cube region. This is based on the abstract
/// RegionType and simply refines the key and attribute values to conform with what is
/// applicable for dimensions and attributes, respectively. See the documentation of the base
/// type for more details on how a region is defined.
#[derive(Debug)]
pub struct CubeRegionType {
    pub attributes: Option<Vec<AttributeValueSetType>>,
    pub is_included: Option<bool>,
    pub key_values: Option<Vec<CubeRegionKeyType>>,
}

/// AttributeValueSetType defines the structure for providing values for a data attribute. If
/// no values are provided, the attribute is implied to included/excluded from the region in
/// which it is defined, with no regard to the value of the data attribute. Note that for
/// metadata attributes which occur within other metadata attributes, a nested identifier can
/// be provided. For example, a value of CONTACT.ADDRESS.STREET refers to the metadata
/// attribute with the identifier STREET which exists in the ADDRESS metadata attribute in
/// the CONTACT metadata attribute, which is defined at the root of the report structure.
#[derive(Debug)]
pub struct AttributeValueSetType {
    pub cascade_values: Option<Vec<String>>,
    pub id: String,
    pub time_range: Option<TimeRangeValueType>,
    pub values: Option<Vec<String>>,
}

/// TimeRangeValueType allows a time period value to be expressed as a range. It can be
/// expressed as the period before a period, after a period, or between two periods. Each of
/// these properties can specify their inclusion in regards to the range.
#[derive(Debug)]
pub struct TimeRangeValueType {
    /// AfterPeriod is the period after which the period is meant to cover. This date may be
    /// inclusive or exclusive in the range.
    pub after_period: Option<TimePeriodRangeType>,
    /// BeforePeriod is the period before which the period is meant to cover. This date may be
    /// inclusive or exclusive in the range.
    pub before_period: Option<TimePeriodRangeType>,
    /// EndPeriod is the end period of the range. This date may be inclusive or exclusive in the
    /// range.
    pub end_period: Option<TimePeriodRangeType>,
    /// StartPeriod is the start date or the range that the queried date must occur within. This
    /// date may be inclusive or exclusive in the range.
    pub start_period: Option<TimePeriodRangeType>,
}

/// AfterPeriod is the period after which the period is meant to cover. This date may be
/// inclusive or exclusive in the range.
///
/// TimePeriodRangeType defines a time period, and indicates whether it is inclusive in a
/// range.
///
/// BeforePeriod is the period before which the period is meant to cover. This date may be
/// inclusive or exclusive in the range.
///
/// EndPeriod is the end period of the range. This date may be inclusive or exclusive in the
/// range.
///
/// StartPeriod is the start date or the range that the queried date must occur within. This
/// date may be inclusive or exclusive in the range.
#[derive(Debug)]
pub struct TimePeriodRangeType {
    pub is_inclusive: Option<bool>,
    pub period: Option<String>,
}

/// CubeRegionKeyType is a type for providing a set of values for a dimension for the purpose
/// of defining a data cube region. A set of distinct value can be provided, or if this
/// dimension is represented as time, and time range can be specified.
#[derive(Debug)]
pub struct CubeRegionKeyType {
    pub cascade_values: Option<Vec<String>>,
    pub id: String,
    pub time_range: Option<TimeRangeValueType>,
    pub values: Option<Vec<String>>,
}

/// MetadataTargetRegion describes a set of target object values for a given report structure
/// which define a region, and the metadata attribute which relate to the target for the
/// purpose of describing a constraint.
///
/// MetadataTargetRegionType defines the structure of a metadata target region. A metadata
/// target region must define the report structure and the metadata target from that
/// structure on which the region is based. This type is based on the abstract RegionType and
/// simply refines the key and attribute values to conform with what is applicable for target
/// objects and metadata attributes, respectively. See the documentation of the base type for
/// more details on how a region is defined.
#[derive(Debug)]
pub struct MetadataTargetRegionType {
    pub attributes: Option<Vec<MetadataAttributeValueSetType>>,
    pub include_: Option<bool>,
    pub key_values: Option<Vec<MetadataTargetRegionKeyType>>,
    pub metadata_target: String,
    pub report: String,
}

/// MetadataAttributeValueSetType defines the structure for providing values for a metadata
/// attribute. If no values are provided, the attribute is implied to included/excluded from
/// the region in which it is defined, with no regard to the value of the metadata attribute.
#[derive(Debug)]
pub struct MetadataAttributeValueSetType {
    pub cascade_values: Option<Vec<String>>,
    pub id: String,
    pub time_range: Option<TimeRangeValueType>,
    pub values: Option<Vec<String>>,
}

/// MetadataTargetRegionKeyType is a type for providing a set of values for a target object
/// in a metadata target of a refence metadata report. A set of values or a time range can be
/// provided for a report period target object. A collection of the respective types of
/// references can be provided for data set reference and identifiable object reference
/// target objects. For a key descriptor values target object, a collection of data keys can
/// be provided.
#[derive(Debug)]
pub struct MetadataTargetRegionKeyType {
    pub data_keys: Option<Vec<DataKeyType>>,
    pub data_sets: Option<Vec<SetReferenceType>>,
    pub id: String,
    pub objects: Option<Vec<String>>,
    pub time_range: Option<TimeRangeValueType>,
    pub values: Option<Vec<String>>,
}

/// ReferencePeriod is used to report start date and end date constraints.
///
/// Specifies the inclusive start and end times.
#[derive(Debug)]
pub struct ReferencePeriodType {
    pub end_time: String,
    pub start_time: String,
}

/// ReleaseCalendar defines dates on which the constrained data is to be made available.
///
/// ReleaseCalendarType describes information about the timing of releases of the constrained
/// data. All of these values use the standard "P7D" - style format.
#[derive(Debug)]
pub struct ReleaseCalendarType {
    /// Offset is the interval between January first and the first release of data within the
    /// year.
    pub offset: String,
    /// Periodicity is the period between releases of the data set.
    pub periodicity: String,
    /// Tolerance is the period after which the release of data may be deemed late.
    pub tolerance: String,
}

/// dataConsumerScheme provides the details of an data consumer scheme, in which data
/// consumers are described.
///
/// DataConsumerSchemeType defines a type of organisation scheme which contains only data
/// consumers. The data consumer scheme maintained by a particular maintenance agency is
/// always provided a fixed identifier and version, and is never final. Therefore, consumers
/// can be added or removed without have to version the scheme. This scheme has no hierarchy,
/// meaning that no organisation may define a relationship with another organisation in the
/// scheme.
///
/// MaintainableType is an abstract base type for all maintainable objects.
///
/// NameableType is an abstract base type for all nameable objects.
///
/// IdentifiableType is an abstract base type for all identifiable objects.
///
/// AnnotableType is an abstract base type used for all annotable artefacts. Any type that
/// provides for annotations should extend this type.
#[derive(Debug)]
pub struct DataConsumerSchemeTypeElement {
    pub id: String,
    pub agency_id: String,
    pub name: String,
    pub version: Option<String>,
    pub annotations: Option<Vec<AnnotationType>>,
    /// Links field is an array of link objects. Also used to specify the URI or the URN to
    /// itself. If appropriate, a collection of links to additional external resources.
    pub links: Option<Vec<Link>>,
    pub description: Option<String>,
    pub descriptions: Option<HashMap<String, Option<serde_json::Value>>>,
    pub names: Option<HashMap<String, Option<serde_json::Value>>>,
    pub is_external_reference: Option<bool>,
    pub is_final: Option<bool>,
    pub valid_from: Option<String>,
    pub valid_to: Option<String>,
    pub data_consumers: Option<Vec<DataConsumerTypeElement>>,
    pub is_partial: Option<bool>,
}

/// DataConsumer describes an organisation using data as input for further processing.
///
/// DataConsumerType defines the structure of a data consumer description. The contacts
/// defined for the organisation are specific to the data consumer role the organisation is
/// serving.
///
/// NameableType is an abstract base type for all nameable objects.
///
/// IdentifiableType is an abstract base type for all identifiable objects.
///
/// AnnotableType is an abstract base type used for all annotable artefacts. Any type that
/// provides for annotations should extend this type.
#[derive(Debug)]
pub struct DataConsumerTypeElement {
    pub name: String,
    pub id: Option<String>,
    pub annotations: Option<Vec<AnnotationType>>,
    /// Links field is an array of link objects. Also used to specify the URI or the URN to
    /// itself. If appropriate, a collection of links to additional external resources.
    pub links: Option<Vec<Link>>,
    pub description: Option<String>,
    pub descriptions: Option<HashMap<String, Option<serde_json::Value>>>,
    pub names: Option<HashMap<String, Option<serde_json::Value>>>,
    pub contacts: Option<Vec<ContactType>>,
}

/// dataProviderScheme provides the details of an data provider scheme, in which data
/// providers are described.
///
/// DataProviderSchemeType defines a type of organisation scheme which contains only data
/// providers. The data provider scheme maintained by a particular maintenance agency is
/// always provided a fixed identifier and version, and is never final. Therefore, providers
/// can be added or removed without have to version the scheme. This scheme has no hierarchy,
/// meaning that no organisation may define a relationship with another organisation in the
/// scheme.
///
/// MaintainableType is an abstract base type for all maintainable objects.
///
/// NameableType is an abstract base type for all nameable objects.
///
/// IdentifiableType is an abstract base type for all identifiable objects.
///
/// AnnotableType is an abstract base type used for all annotable artefacts. Any type that
/// provides for annotations should extend this type.
#[derive(Debug)]
pub struct DataProviderSchemeTypeElement {
    pub id: String,
    pub agency_id: String,
    pub name: String,
    pub version: Option<String>,
    pub annotations: Option<Vec<AnnotationType>>,
    /// Links field is an array of link objects. Also used to specify the URI or the URN to
    /// itself. If appropriate, a collection of links to additional external resources.
    pub links: Option<Vec<Link>>,
    pub description: Option<String>,
    pub descriptions: Option<HashMap<String, Option<serde_json::Value>>>,
    pub names: Option<HashMap<String, Option<serde_json::Value>>>,
    pub is_external_reference: Option<bool>,
    pub is_final: Option<bool>,
    pub valid_from: Option<String>,
    pub valid_to: Option<String>,
    pub data_providers: Option<Vec<DataProviderTypeElement>>,
    pub is_partial: Option<bool>,
}

/// DataProvider describes an organisation that produces data or reference metadata.
///
/// DataProviderType defines the structure of a data provider description. The contacts
/// defined for the organisation are specific to the data provider role the organisation is
/// serving.
///
/// NameableType is an abstract base type for all nameable objects.
///
/// IdentifiableType is an abstract base type for all identifiable objects.
///
/// AnnotableType is an abstract base type used for all annotable artefacts. Any type that
/// provides for annotations should extend this type.
#[derive(Debug)]
pub struct DataProviderTypeElement {
    pub name: String,
    pub id: Option<String>,
    pub annotations: Option<Vec<AnnotationType>>,
    /// Links field is an array of link objects. Also used to specify the URI or the URN to
    /// itself. If appropriate, a collection of links to additional external resources.
    pub links: Option<Vec<Link>>,
    pub description: Option<String>,
    pub descriptions: Option<HashMap<String, Option<serde_json::Value>>>,
    pub names: Option<HashMap<String, Option<serde_json::Value>>>,
    pub contacts: Option<Vec<ContactType>>,
}

/// AttributeRelationship describes how the value of this attribute varies with the values of
/// other components. These relationships will be used to determine the attachment level of
/// the attribute in the various data formats.
///
/// AttributeRelationshipType defines the structure for stating the relationship between an
/// attribute and other data structure definition components.
#[derive(Debug)]
pub struct AttributeRelationshipType {
    pub attachment_groups: Option<Vec<String>>,
    pub dimensions: Option<Vec<String>>,
    /// Urn reference to a local GroupKey Descriptor. This is used as a convenience to
    /// referencing all of the dimension defined by the referenced group. The attribute will also
    /// be attached to this group.
    pub group: Option<String>,
    /// This means that value of the attribute will not vary with any of the other data structure
    /// components. This will always be treated as a data set level attribute.
    pub none: Option<HashMap<String, Option<serde_json::Value>>>,
    /// Urn reference to a primary measure locally, where the reference to the data structure
    /// definition which defines the primary measure is provided in another context (for example
    /// the data structure definition in which the reference occurs). This is used to specify
    /// that the value of the attribute is dependent upon the observed value. An attribute with
    /// this relationship will always be treated as an observation level attribute.
    pub primary_measure: Option<String>,
}

/// ReportingYearStartDay is a specialized data attribute which provides important context to
/// the time dimension. If the value of the time dimension is one of the standard reporting
/// periods (see common:ReportingTimePeriodType) then this attribute is used to state the
/// month and day that the reporting year begins. This provides a reference point from which
/// the actual calendar dates covered by these periods can be determined. If this attribute
/// does not occur in a data set, then the reporting year start day will be assumed to be
/// January 1.
///
/// ReportingYearStartDayType defines the structure of the reporting year start day
/// attribute. The reporting year start day attribute takes its semantic from its concept
/// identity (usually the REPORTING_YEAR_START_DAY concept), yet is always has a fixed
/// identifier (REPORTING_YEAR_START_DAY). The reporting year start day attribute always has
/// a fixed text format, which specifies that the format of its value is always a day and
/// month in the ISO 8601 format of '--MM-DD'. As with any other attribute, an attribute
/// relationship must be specified. this relationship should be carefully selected as it will
/// determin what type of data the data structure definition will allow. For example, if an
/// attribute relationship of none is specified, this will mean the data sets conforming to
/// this data structure definition can only contain data with standard reporting periods
/// where the all reporting periods have the same start day. In this case, data reported as
/// standard reporting periods from two entities with different fiscal year start days could
/// not be contained in the same data set.
///
/// IdentifiableType is an abstract base type for all identifiable objects.
///
/// AnnotableType is an abstract base type used for all annotable artefacts. Any type that
/// provides for annotations should extend this type.
#[derive(Debug)]
pub struct ReportingYearStartDayType {
    pub assignment_status: UsageStatusType,
    pub attribute_relationship: AttributeRelationshipType,
    /// Urn reference to a concept where the identification of the concept scheme which defines
    /// it is contained in another context.
    pub concept_identity: String,
    pub local_representation: ReportingYearStartDayRepresentationType,
    pub id: Option<String>,
    pub annotations: Option<Vec<AnnotationType>>,
    /// Links field is an array of link objects. Also used to specify the URI or the URN to
    /// itself. If appropriate, a collection of links to additional external resources.
    pub links: Option<Vec<Link>>,
}

/// ReportingYearStartDayRepresentationType defines the representation for the reporting year
/// start day attribute. Enumerated values are not allowed and the text format is fixed to be
/// a day and month in the ISO 8601 format of '--MM-DD'.
#[derive(Debug)]
pub struct ReportingYearStartDayRepresentationType {
    pub text_format: ReportingYearStartDayTextFormatType,
}

/// ReportingYearStartDayTextFormatType is a restricted version of the
/// NonFacetedTextFormatType that fixes the value of the text type to be DayMonth. This type
/// exists solely for the purpose of fixing the representation of the reporting year start
/// day attribute.
#[derive(Debug)]
pub struct ReportingYearStartDayTextFormatType {
    pub text_type: Option<SimpleDataType>,
}

/// MeasureDimension is a special type of dimension which defines multiple measures in a data
/// structure. This is represented as any other dimension in a unless it is the observation
/// dimension. It takes it representation from a concept scheme, and this scheme defines the
/// measures and their representations. When data is formatted with this as the observation
/// dimension, these measures can be made explicit or the value of the dimension can be
/// treated as any other dimension. If the measures are explicit, the representation of the
/// observation will be specific to the core representation for each concept in the
/// representation concept scheme. Note that it is necessary that these representations are
/// compliant (the same or derived from) with that of the primary measure.
///
/// MeasureDimensionType defines the structure of the measure dimension. It is derived from
/// the base dimension structure, but requires that a coded representation taken from a
/// concept scheme is given.
///
/// IdentifiableType is an abstract base type for all identifiable objects.
///
/// AnnotableType is an abstract base type used for all annotable artefacts. Any type that
/// provides for annotations should extend this type.
#[derive(Debug)]
pub struct MeasureDimensionType {
    /// Urn reference to a concept where the identification of the concept scheme which defines
    /// it is contained in another context.
    pub concept_identity: String,
    pub local_representation: MeasureDimensionRepresentationType,
    pub id: Option<String>,
    pub annotations: Option<Vec<AnnotationType>>,
    /// Links field is an array of link objects. Also used to specify the URI or the URN to
    /// itself. If appropriate, a collection of links to additional external resources.
    pub links: Option<Vec<Link>>,
    /// ConceptRoles references concepts which define roles which this dimension serves. If the
    /// concept from which the attribute takes its identity also defines a role the concept
    /// serves, then the isConceptRole indicator can be set to true on the concept identity
    /// rather than repeating the reference here.
    pub concept_roles: Option<Vec<String>>,
    /// The position attribute specifies the position of the dimension in the data structure
    /// definition, starting at 0. It is optional as the position of the dimension in the key
    /// descriptor (DimensionList element) always takes precedence over the value supplied here.
    /// This is strictly for informational purposes only.
    pub position: Option<i64>,
    /// The type attribute identifies whether then dimension is a measure dimension, the time
    /// dimension, or a regular dimension. Although these are all apparent by the element names,
    /// this attribute allows for each dimension to be processed independent of its element as
    /// well as maintaining the restriction of only one measure and time dimension while still
    /// allowing dimension to occur in any order.
    pub measure_dimension_type_type: Option<DimensionTypeType>,
}

/// BaseDimensionRepresentationType is an abstract base which defines the representation for
/// a measure dimension.
#[derive(Debug)]
pub struct MeasureDimensionRepresentationType {
    /// Urn reference to a concept scheme object.
    pub enumeration: String,
}

/// TimeDimension is a special dimension which designates the period in time in which the
/// data identified by the full series key applies.
///
/// TimeDimensionType describes the structure of a time dimension. The time dimension takes
/// its semantic from its concept identity (usually the TIME_PERIOD concept), yet is always
/// has a fixed identifier (TIME_PERIOD). The time dimension always has a fixed text format,
/// which specifies that its format is always the in the value set of the observational time
/// period (see common:ObservationalTimePeriodType). It is possible that the format may be a
/// sub-set of the observational time period value set. For example, it is possible to state
/// that the representation might always be a calendar year. See the enumerations of the
/// textType attribute in the LocalRepresentation/TextFormat for more details of the possible
/// sub-sets. It is also possible to facet this representation with start and end dates. The
/// purpose of such facts is to restrict the value of the time dimension to occur within the
/// specified range. If the time dimension is expected to allow for the standard reporting
/// periods (see common:ReportingTimePeriodType) to be used, then it is strongly recommended
/// that the reporting year start day attribute also be included in the data structure
/// definition. When the reporting year start day attribute is used, any standard reporting
/// period values will be assumed to be based on the start day contained in this attribute.
/// If the reporting year start day attribute is not included and standard reporting periods
/// are used, these values will be assumed to be based on a reporting year which begins
/// January 1.
///
/// IdentifiableType is an abstract base type for all identifiable objects.
///
/// AnnotableType is an abstract base type used for all annotable artefacts. Any type that
/// provides for annotations should extend this type.
#[derive(Debug)]
pub struct TimeDimensionType {
    /// Urn reference to a concept where the identification of the concept scheme which defines
    /// it is contained in another context.
    pub concept_identity: String,
    pub local_representation: TimeDimensionRepresentationType,
    pub id: Option<String>,
    pub annotations: Option<Vec<AnnotationType>>,
    /// Links field is an array of link objects. Also used to specify the URI or the URN to
    /// itself. If appropriate, a collection of links to additional external resources.
    pub links: Option<Vec<Link>>,
    /// The position attribute specifies the position of the dimension in the data structure
    /// definition, starting at 0. It is optional as the position of the dimension in the key
    /// descriptor (DimensionList element) always takes precedence over the value supplied here.
    /// This is strictly for informational purposes only.
    pub position: Option<i64>,
    /// The type attribute identifies whether the dimension is a measure dimension, the time
    /// dimension, or a regular dimension. Although these are all apparent by the element names,
    /// this attribute allows for each dimension to be processed independent of its element as
    /// well as maintaining the restriction of only one measure and time dimension while still
    /// allowing dimension to occur in any order.
    pub time_dimension_type_type: Option<DimensionTypeType>,
}

/// TimeDimensionRepresentationType defines the representation for the time dimension.
/// Enumerated values are not allowed.
#[derive(Debug)]
pub struct TimeDimensionRepresentationType {
    pub text_format: TimeTextFormatType,
}

/// TimeTextFormat is a restricted version of the SimpleComponentTextFormatType that only
/// allows time based format and specifies a default ObservationalTimePeriod representation
/// and facets of a start and end time.
#[derive(Debug)]
pub struct TimeTextFormatType {
    pub end_time: Option<String>,
    pub start_time: Option<String>,
    pub text_type: Option<TimeDataType>,
}

/// Group describes a group descriptor in a data structure definition. It is a set metadata
/// concepts (and possibly their values) that define a partial key derived from the key
/// descriptor in a data structure definition.
///
/// GroupType describes the structure of a group descriptor in a data structure definition. A
/// group may consist of a of partial key, or collection of distinct cube regions or key sets
/// to which attributes may be attached. The purpose of a group is to specify attributes
/// values which have the same value based on some common dimensionality. All groups declared
/// in the data structure must be unique - that is, you may not have duplicate partial keys.
/// All groups must be given unique identifiers.
///
/// IdentifiableType is an abstract base type for all identifiable objects.
///
/// AnnotableType is an abstract base type used for all annotable artefacts. Any type that
/// provides for annotations should extend this type.
#[derive(Debug)]
pub struct GroupTypeElement {
    pub id: String,
    pub annotations: Option<Vec<AnnotationType>>,
    /// Links field is an array of link objects. Also used to specify the URI or the URN to
    /// itself. If appropriate, a collection of links to additional external resources.
    pub links: Option<Vec<Link>>,
    /// Urn reference to an attachment constraint that defines the key sets and/or cube regions
    /// that attributes may be attached to. This is an alternative to referencing the dimensions,
    /// and allows attributes to be attached to data for given values of dimensions.
    pub attachment_constraint: Option<String>,
    pub group_dimensions: Option<Vec<String>>,
}

/// dataflow provides the details of a data flow, which is defined as the structure of data
/// that will be provided for different reference periods.
///
/// DataflowType describes the structure of a data flow. A data flow is defined as the
/// structure of data that will provided for different reference periods. If this type is not
/// referenced externally, then a reference to a data structure definition must be provided.
///
/// MaintainableType is an abstract base type for all maintainable objects.
///
/// NameableType is an abstract base type for all nameable objects.
///
/// IdentifiableType is an abstract base type for all identifiable objects.
///
/// AnnotableType is an abstract base type used for all annotable artefacts. Any type that
/// provides for annotations should extend this type.
#[derive(Debug)]
pub struct DataflowTypeElement {
    pub id: String,
    pub agency_id: String,
    pub name: String,
    pub version: Option<String>,
    pub annotations: Option<Vec<AnnotationType>>,
    /// Links field is an array of link objects. Also used to specify the URI or the URN to
    /// itself. If appropriate, a collection of links to additional external resources.
    pub links: Option<Vec<Link>>,
    pub description: Option<String>,
    pub descriptions: Option<HashMap<String, Option<serde_json::Value>>>,
    pub names: Option<HashMap<String, Option<serde_json::Value>>>,
    pub is_external_reference: Option<bool>,
    pub is_final: Option<bool>,
    pub valid_from: Option<String>,
    pub valid_to: Option<String>,
    /// Urn reference to the data structure definition which defines the structure of all data
    /// for this flow.
    pub structure: Option<String>,
}

/// hierarchicalCodelist provides the details of a hierarchical code list, which is defined
/// as an organised collection of codes that may participate in many parent/child
/// relationships with other codes in the list, as defined by one or more hierarchy of the
/// list.
///
/// HierarchicalCodelistType describes the structure of a hierarchical codelist. A
/// hierarchical code list is defined as an organised collection of codes that may
/// participate in many parent/child relationships with other codes in the list, as defined
/// by one or more hierarchy of the list.
///
/// MaintainableType is an abstract base type for all maintainable objects.
///
/// NameableType is an abstract base type for all nameable objects.
///
/// IdentifiableType is an abstract base type for all identifiable objects.
///
/// AnnotableType is an abstract base type used for all annotable artefacts. Any type that
/// provides for annotations should extend this type.
#[derive(Debug)]
pub struct HierarchicalCodelistTypeElement {
    pub id: String,
    pub agency_id: String,
    pub name: String,
    pub version: Option<String>,
    pub annotations: Option<Vec<AnnotationType>>,
    /// Links field is an array of link objects. Also used to specify the URI or the URN to
    /// itself. If appropriate, a collection of links to additional external resources.
    pub links: Option<Vec<Link>>,
    pub description: Option<String>,
    pub descriptions: Option<HashMap<String, Option<serde_json::Value>>>,
    pub names: Option<HashMap<String, Option<serde_json::Value>>>,
    pub is_external_reference: Option<bool>,
    pub is_final: Option<bool>,
    pub valid_from: Option<String>,
    pub valid_to: Option<String>,
    pub hierarchies: Option<Vec<HierarchyTypeElement>>,
    /// includedCodelists provides a collection of references to the code lists whose codes are
    /// arranged in this hierarchical code list.
    pub included_codelists: Option<HashMap<String, Option<serde_json::Value>>>,
}

/// Hierarchy describes a classification structure arranged in levels of detail from the
/// broadest to the most detailed level. These levels can be formal or informal, and are not
/// necessary to describe. If the hierarchy does contain levels, then each hierarchical code
/// is assumed to exist in the level where the depths of nesting match.
///
/// The Hierarchy is an abstract type that provides for a classification structure of
/// referenced codes arranged in levels of detail from the broadest to the most detailed
/// level. The levels in which the code exist can be formal or informal.
///
/// NameableType is an abstract base type for all nameable objects.
///
/// IdentifiableType is an abstract base type for all identifiable objects.
///
/// AnnotableType is an abstract base type used for all annotable artefacts. Any type that
/// provides for annotations should extend this type.
#[derive(Debug)]
pub struct HierarchyTypeElement {
    pub name: String,
    pub id: Option<String>,
    pub annotations: Option<Vec<AnnotationType>>,
    /// Links field is an array of link objects. Also used to specify the URI or the URN to
    /// itself. If appropriate, a collection of links to additional external resources.
    pub links: Option<Vec<Link>>,
    pub description: Option<String>,
    pub descriptions: Option<HashMap<String, Option<serde_json::Value>>>,
    pub names: Option<HashMap<String, Option<serde_json::Value>>>,
    pub hierarchical_codes: Vec<HierarchicalCodeTypeElement>,
    /// In a formally leveled hierarchy, Level describes a group of codes which are characterised
    /// by homogeneous coding, and where the parent of each code in the group is at the same
    /// higher level of the hierarchy. In a value based hierarchy Level describes information
    /// about the codes at the specified nesting level. This structure is recursive to indicate
    /// the hierarchy of the levels.
    pub level: Box<Option<LevelTypeClass>>,
    pub leveled: Option<bool>,
}

/// HierarchicalCode is used to assemble the codes from the codelist(s) referenced into a
/// hierarchy.
///
/// HierarchicalCodeType describes the structure of a hierarchical code. A hierarchical code
/// provides for a reference to a code that is referenced within the hierarchical code list
/// via either a complete reference to a code through a URN, or a local reference which
/// utilizes the included codelist reference alias and the identification of a code from the
/// list. Codes are arranged in a hierarchy by this reference. Note that it is possible to
/// reference a single code such that it has multiple parents within the hierarchy. Further,
/// the hierarchy may or may not be a leveled one.
///
/// IdentifiableType is an abstract base type for all identifiable objects.
///
/// HierarchicalCode is used to nest referenced codes into a value based hierarchy.
///
/// AnnotableType is an abstract base type used for all annotable artefacts. Any type that
/// provides for annotations should extend this type.
#[derive(Debug)]
pub struct HierarchicalCodeTypeElement {
    pub id: String,
    pub annotations: Option<Vec<AnnotationType>>,
    /// Links field is an array of link objects. Also used to specify the URI or the URN to
    /// itself. If appropriate, a collection of links to additional external resources.
    pub links: Option<Vec<Link>>,
    /// Code provides a complete, explicit urn reference to the codelist and code.
    pub code: Option<String>,
    /// CodeID references the id of a code from the codelist that is referenced through the
    /// CodelistAliaRef element.
    pub code_id: Option<String>,
    /// CodelistAliasRef references an alias assigned in a IncludedCodelist element in the
    /// containing hierarchical codelist. This is used in conjunction with the CodeID element to
    /// reference a code from one of the included codelists.
    pub codelist_alias_ref: Option<String>,
    pub hierarchical_codes: Option<Vec<HierarchicalCodeTypeElement>>,
    /// Level references (through a urn) a formal level defined within the hierarchy which
    /// defines this hierarchical code. This is only necessary if the nesting depth of the
    /// hierarchical code does not correspond to the nesting depth of the level to which it
    /// belongs (i.e. the hieararchical code is to skip down a level). Otherwise, the code is
    /// assumed to exist at the level in which the nesting depth of the level matches the nesting
    /// depth of the code.
    pub level: Option<String>,
    pub valid_from: Option<String>,
    pub valid_to: Option<String>,
    pub version: Option<String>,
}

/// In a formally leveled hierarchy, Level describes a group of codes which are characterised
/// by homogeneous coding, and where the parent of each code in the group is at the same
/// higher level of the hierarchy. In a value based hierarchy Level describes information
/// about the codes at the specified nesting level. This structure is recursive to indicate
/// the hierarchy of the levels.
///
/// LevelType describes a level in a hierarchical codelist. Where level is defined as a group
/// where codes can be characterised by homogeneous coding, and where the parent of each code
/// in the group is at the same higher level of the hierarchy.
///
/// NameableType is an abstract base type for all nameable objects.
///
/// IdentifiableType is an abstract base type for all identifiable objects.
///
/// Level describes the next level down in the hierarchy.
///
/// AnnotableType is an abstract base type used for all annotable artefacts. Any type that
/// provides for annotations should extend this type.
#[derive(Debug)]
pub struct LevelTypeClass {
    pub name: String,
    pub id: Option<String>,
    pub annotations: Option<Vec<AnnotationType>>,
    /// Links field is an array of link objects. Also used to specify the URI or the URN to
    /// itself. If appropriate, a collection of links to additional external resources.
    pub links: Option<Vec<Link>>,
    pub description: Option<String>,
    pub descriptions: Option<HashMap<String, Option<serde_json::Value>>>,
    pub names: Option<HashMap<String, Option<serde_json::Value>>>,
    /// CodingFormat specifies the text formatting of the codes in this level. This includes
    /// facets such as the expected characters and the length of the codes.
    pub coding_format: Option<CodingTextFormatType>,
    /// Level describes the next level down in the hierarchy.
    pub level: Box<Option<LevelTypeClass>>,
}

/// CodingFormat specifies the text formatting of the codes in this level. This includes
/// facets such as the expected characters and the length of the codes.
#[derive(Debug)]
pub struct CodingTextFormatType {
    pub end_value: Option<i64>,
    pub interval: Option<i64>,
    pub is_sequence: Option<bool>,
    pub max_length: Option<i64>,
    pub max_value: Option<i64>,
    pub min_length: Option<i64>,
    pub min_value: Option<i64>,
    pub pattern: Option<String>,
    pub start_value: Option<i64>,
    pub text_type: Option<SimpleCodeDataType>,
}

/// MetadataTarget is a collection of target objects which when taken together describe a
/// structure which defines the key of an object type to which metadata may be attached and
/// serve to disambiguate reference metadata set reports.
///
/// IdentifiableType is an abstract base type for all identifiable objects.
///
/// AnnotableType is an abstract base type used for all annotable artefacts. Any type that
/// provides for annotations should extend this type.
#[derive(Debug)]
pub struct MetadataTargetTypeElement {
    pub id: String,
    pub annotations: Option<Vec<AnnotationType>>,
    /// Links field is an array of link objects. Also used to specify the URI or the URN to
    /// itself. If appropriate, a collection of links to additional external resources.
    pub links: Option<Vec<Link>>,
    pub constraint_content_targets: Option<Vec<ConstraintContentTargetType>>,
    pub data_set_targets: Option<Vec<DataSetTargetType>>,
    pub identifiable_object_targets: Option<Vec<Identifiable>>,
    pub key_descriptor_values_targets: Option<Vec<KeyDescriptorValuesTargetType>>,
    pub report_period_targets: Option<Vec<ReportPeriodTargetType>>,
}

/// ConstraintContentTarget is target object which references an attachment constraint for
/// the purpose of attaching reference metadata data to data key sets or cube regions defined
/// by the constraint.
///
/// ConstraintTargetType defines the structure of a constraint target object. The constraint
/// target object has a fixed representation and identifier.
///
/// IdentifiableType is an abstract base type for all identifiable objects.
///
/// AnnotableType is an abstract base type used for all annotable artefacts. Any type that
/// provides for annotations should extend this type.
#[derive(Debug)]
pub struct ConstraintContentTargetType {
    pub local_representation: ConstraintRepresentationType,
    pub id: Option<String>,
    pub annotations: Option<Vec<AnnotationType>>,
    /// Links field is an array of link objects. Also used to specify the URI or the URN to
    /// itself. If appropriate, a collection of links to additional external resources.
    pub links: Option<Vec<Link>>,
}

/// ConstraintRepresentationType defines the possible local representations of a constraint
/// reference target object. The representation is fixed to always be an attachment
/// constraint reference.
#[derive(Debug)]
pub struct ConstraintRepresentationType {
    pub text_format: ConstraintTextFormatType,
}

/// ConstraintTextFormatType is a restricted version of the NonFacetedTextFormatType that
/// specifies a fixed AttachmentConstraintReference representation.
#[derive(Debug)]
pub struct ConstraintTextFormatType {
    pub text_type: Option<TargetObjectDataType>,
}

/// DataSetTarget is target object which references a data set for the purpose of attaching
/// reference metadata data. A data set reference is a full reference to a data provider and
/// an identifier for the data set.
///
/// DataSetTargetType defines the structure of a data set target object. The data set target
/// object has a fixed representation and identifier.
///
/// IdentifiableType is an abstract base type for all identifiable objects.
///
/// AnnotableType is an abstract base type used for all annotable artefacts. Any type that
/// provides for annotations should extend this type.
#[derive(Debug)]
pub struct DataSetTargetType {
    pub local_representation: DataSetRepresentationType,
    pub id: Option<String>,
    pub annotations: Option<Vec<AnnotationType>>,
    /// Links field is an array of link objects. Also used to specify the URI or the URN to
    /// itself. If appropriate, a collection of links to additional external resources.
    pub links: Option<Vec<Link>>,
}

/// DataSetRepresentationType defines the possible local representations of a data set
/// reference target object. The representation is fixed to always be a data set reference.
#[derive(Debug)]
pub struct DataSetRepresentationType {
    pub text_format: DataSetTextFormatType,
}

/// DataSetTextFormatType is a restricted version of the NonFacetedTextFormatType that
/// specifies a fixed DataSetReference representation.
#[derive(Debug)]
pub struct DataSetTextFormatType {
    pub text_type: Option<TargetObjectDataType>,
}

/// IdentifiableObjectTarget is target object which references an Identifiable object as
/// defined in the SDMX Information Model. The reference must be complete (i.e. a URN or a
/// complete set of reference fields). For an item object, it is possible to define a local
/// representation of an item scheme from which the item must be referenced.
///
/// IdentifiableObjectTargetType defines the structure of an identifiable target object. The
/// identifiable target object has a fixed representation of a reference and can specify a
/// local representation of any item scheme for the purpose of restricting which items may be
/// referenced. The identifiable object target must specify the object type which the target
/// object is meant to reference.
///
/// IdentifiableType is an abstract base type for all identifiable objects.
///
/// AnnotableType is an abstract base type used for all annotable artefacts. Any type that
/// provides for annotations should extend this type.
#[derive(Debug)]
pub struct Identifiable {
    pub id: String,
    pub local_representation: IdentifiableObjectRepresentationType,
    pub object_type: ObjectTypeCodelistType,
    pub annotations: Option<Vec<AnnotationType>>,
    /// Links field is an array of link objects. Also used to specify the URI or the URN to
    /// itself. If appropriate, a collection of links to additional external resources.
    pub links: Option<Vec<Link>>,
}

/// IdentifiableObjectRepresentationType defines the possible local representations of an
/// identifiable object target object.
#[derive(Debug)]
pub struct IdentifiableObjectRepresentationType {
    /// Urn reference to an item scheme. Enumeration is only permissible if the object type of
    /// the identifiable object target is an item in an item scheme. This enumeration is meant to
    /// limit the referencable objects to the items defined in the referenced item scheme.
    pub enumeration: Option<String>,
    pub text_format: Option<IdentifiableObjectTextFormatType>,
}

/// IdentifiableObjectTextFormatType is a restricted version of the NonFacetedTextFormatType
/// that specifies a fixed IdentifiableReference representation.
#[derive(Debug)]
pub struct IdentifiableObjectTextFormatType {
    pub text_type: Option<TargetObjectDataType>,
}

/// KeyDescriptorValuesTarget is target object which references a data key for the purpose of
/// attach reference metadata to portions of data. A data key is a set of dimension
/// references and values for those dimension. This component on its own is not of much use,
/// as the data key only has local references to the dimensions. Therefore it is typical that
/// this is used in combination with some sort of reference to the data (either a data set
/// reference or a reference to the underlying structure, structure usage, or provision
/// agreement of the data.
///
/// KeyDescriptorValuesTargetType defines the structure of a key descriptor values target
/// object. The key descriptor values target object has a fixed representation and
/// identifier.
///
/// IdentifiableType is an abstract base type for all identifiable objects.
///
/// AnnotableType is an abstract base type used for all annotable artefacts. Any type that
/// provides for annotations should extend this type.
#[derive(Debug)]
pub struct KeyDescriptorValuesTargetType {
    pub local_representation: KeyDescriptorValuesRepresentationType,
    pub id: Option<String>,
    pub annotations: Option<Vec<AnnotationType>>,
    /// Links field is an array of link objects. Also used to specify the URI or the URN to
    /// itself. If appropriate, a collection of links to additional external resources.
    pub links: Option<Vec<Link>>,
}

/// KeyDescriptorValuesRepresentationType defines the possible local representations of a key
/// descriptor values target object. The representation is fixed to always be a data key
/// (KeyValues).
#[derive(Debug)]
pub struct KeyDescriptorValuesRepresentationType {
    pub text_format: KeyDescriptorValuesTextFormatType,
}

/// KeyDescriptorValuesTextFormatType is a restricted version of the NonFacetedTextFormatType
/// that specifies a fixed KeyValues representation.
#[derive(Debug)]
pub struct KeyDescriptorValuesTextFormatType {
    pub text_type: Option<TargetObjectDataType>,
}

/// ReportPeriodTarget is target object which specifies a reporting period to which a
/// metadata report applies.
///
/// ReportPeriodTargetType defines the structure of a report period target object. The report
/// period target object has a fixed representation and identifier.
///
/// IdentifiableType is an abstract base type for all identifiable objects.
///
/// AnnotableType is an abstract base type used for all annotable artefacts. Any type that
/// provides for annotations should extend this type.
#[derive(Debug)]
pub struct ReportPeriodTargetType {
    pub local_representation: ReportPeriodRepresentationType,
    pub id: Option<String>,
    pub annotations: Option<Vec<AnnotationType>>,
    /// Links field is an array of link objects. Also used to specify the URI or the URN to
    /// itself. If appropriate, a collection of links to additional external resources.
    pub links: Option<Vec<Link>>,
}

/// ReportPeriodRepresentationType defines the possible local representations of a report
/// period target object. The reprentation must be a time period or a subset of this
/// representation.
#[derive(Debug)]
pub struct ReportPeriodRepresentationType {
    pub text_format: TimeTextFormatType,
}

/// metadataflow provides the details of a metadata flow, which is defined as the structure
/// of reference metadata that will be provided for different reference periods
///
/// MetadataflowType describes the structure of a metadata flow. A dataflow is defined as the
/// structure of reference metadata that will be provided for different reference periods. If
/// this type is not referenced externally, then a reference to a metadata structure
/// definition must be provided.
///
/// MaintainableType is an abstract base type for all maintainable objects.
///
/// NameableType is an abstract base type for all nameable objects.
///
/// IdentifiableType is an abstract base type for all identifiable objects.
///
/// AnnotableType is an abstract base type used for all annotable artefacts. Any type that
/// provides for annotations should extend this type.
#[derive(Debug)]
pub struct MetadataflowTypeElement {
    pub id: String,
    pub agency_id: String,
    pub name: String,
    pub version: Option<String>,
    pub annotations: Option<Vec<AnnotationType>>,
    /// Links field is an array of link objects. Also used to specify the URI or the URN to
    /// itself. If appropriate, a collection of links to additional external resources.
    pub links: Option<Vec<Link>>,
    pub description: Option<String>,
    pub descriptions: Option<HashMap<String, Option<serde_json::Value>>>,
    pub names: Option<HashMap<String, Option<serde_json::Value>>>,
    pub is_external_reference: Option<bool>,
    pub is_final: Option<bool>,
    pub valid_from: Option<String>,
    pub valid_to: Option<String>,
    /// Structure provides a urn reference to the metadata structure definition describing the
    /// structure of all reference metadata for this flow.
    pub structure: Option<String>,
}

/// organisationUnitScheme provides the details of an organisation unit scheme, in which
/// organisation units are described.
///
/// OrganisationUnitSchemeType defines a type of organisation scheme which simply defines
/// organisations and there parent child relationships. Organisations in this scheme are
/// assigned no particular role, and may in fact exist within the other type of organisation
/// schemes as well.
///
/// MaintainableType is an abstract base type for all maintainable objects.
///
/// NameableType is an abstract base type for all nameable objects.
///
/// IdentifiableType is an abstract base type for all identifiable objects.
///
/// AnnotableType is an abstract base type used for all annotable artefacts. Any type that
/// provides for annotations should extend this type.
#[derive(Debug)]
pub struct OrganisationUnitSchemeTypeElement {
    pub id: String,
    pub agency_id: String,
    pub name: String,
    pub version: Option<String>,
    pub annotations: Option<Vec<AnnotationType>>,
    /// Links field is an array of link objects. Also used to specify the URI or the URN to
    /// itself. If appropriate, a collection of links to additional external resources.
    pub links: Option<Vec<Link>>,
    pub description: Option<String>,
    pub descriptions: Option<HashMap<String, Option<serde_json::Value>>>,
    pub names: Option<HashMap<String, Option<serde_json::Value>>>,
    pub is_external_reference: Option<bool>,
    pub is_final: Option<bool>,
    pub valid_from: Option<String>,
    pub valid_to: Option<String>,
    pub is_partial: Option<bool>,
    pub organisation_units: Option<Vec<OrganisationUnitTypeElement>>,
}

/// OrganisationUnit describes a generic organisation, which serves not predefined role in
/// SDMX.
///
/// OrganisationUnitType defines the structure of an organisation unit description. In
/// addition to general identification and contact information, an organisation unit can
/// specify a relationship with another organisation unit from the same scheme which is its
/// parent organisation.
///
/// NameableType is an abstract base type for all nameable objects.
///
/// IdentifiableType is an abstract base type for all identifiable objects.
///
/// AnnotableType is an abstract base type used for all annotable artefacts. Any type that
/// provides for annotations should extend this type.
#[derive(Debug)]
pub struct OrganisationUnitTypeElement {
    pub name: String,
    pub id: Option<String>,
    pub annotations: Option<Vec<AnnotationType>>,
    /// Links field is an array of link objects. Also used to specify the URI or the URN to
    /// itself. If appropriate, a collection of links to additional external resources.
    pub links: Option<Vec<Link>>,
    pub description: Option<String>,
    pub descriptions: Option<HashMap<String, Option<serde_json::Value>>>,
    pub names: Option<HashMap<String, Option<serde_json::Value>>>,
    pub contacts: Option<Vec<ContactType>>,
    /// Urn reference to an organisation unit, where the reference to the organisation unit
    /// scheme which defines it is provided in another context.
    pub parent: Option<String>,
}

/// process provides the details of a process, which is a scheme which defines or documents
/// the operations performed on data in order to validate data or to derive new information
/// according to a given set of rules. It is not meant to support process automation, but
/// serves as a description of how processes occur. The primary use for this structural
/// mechanism is the attachment of reference metadata regarding statistical processing. This
/// must either contain the full details of the category scheme, or provide a name and
/// identification information and reference the full details from an external structure
/// document or registry service.
///
/// ProcessType describes the structure of a process, which is a scheme which defines or
/// documents the operations performed on data in order to validate data or to derive new
/// information according to a given set of rules. Processes occur in order, and will
/// continue in order unless a transition dictates another step should occur.
///
/// MaintainableType is an abstract base type for all maintainable objects.
///
/// NameableType is an abstract base type for all nameable objects.
///
/// IdentifiableType is an abstract base type for all identifiable objects.
///
/// AnnotableType is an abstract base type used for all annotable artefacts. Any type that
/// provides for annotations should extend this type.
#[derive(Debug)]
pub struct ProcessTypeElement {
    pub id: String,
    pub agency_id: String,
    pub name: String,
    pub version: Option<String>,
    pub annotations: Option<Vec<AnnotationType>>,
    /// Links field is an array of link objects. Also used to specify the URI or the URN to
    /// itself. If appropriate, a collection of links to additional external resources.
    pub links: Option<Vec<Link>>,
    pub description: Option<String>,
    pub descriptions: Option<HashMap<String, Option<serde_json::Value>>>,
    pub names: Option<HashMap<String, Option<serde_json::Value>>>,
    pub is_external_reference: Option<bool>,
    pub is_final: Option<bool>,
    pub valid_from: Option<String>,
    pub valid_to: Option<String>,
    pub process_steps: Option<Vec<ProcessStepTypeElement>>,
}

/// ProcessStep defines a process step, which is a specific operation, performed on data in
/// order to validate or to derive new information according to a given set of rules.
///
/// ProcessStepType describes the structure of a process step. A nested process step is
/// automatically sub-ordinate, and followed as the next step. If the following step is
/// conditional, it should be referenced in a transition.
///
/// NameableType is an abstract base type for all nameable objects.
///
/// IdentifiableType is an abstract base type for all identifiable objects.
///
/// AnnotableType is an abstract base type used for all annotable artefacts. Any type that
/// provides for annotations should extend this type.
#[derive(Debug)]
pub struct ProcessStepTypeElement {
    pub name: String,
    pub id: Option<String>,
    pub annotations: Option<Vec<AnnotationType>>,
    /// Links field is an array of link objects. Also used to specify the URI or the URN to
    /// itself. If appropriate, a collection of links to additional external resources.
    pub links: Option<Vec<Link>>,
    pub description: Option<String>,
    pub descriptions: Option<HashMap<String, Option<serde_json::Value>>>,
    pub names: Option<HashMap<String, Option<serde_json::Value>>>,
    /// Computation describes the computations involved in the process, in any form desired by
    /// the user (these are informational rather than machine-actionable), and so may be supplied
    /// in multiple, parallel-language versions.
    pub computation: Option<ComputationType>,
    pub inputs: Option<Vec<InputOutputType>>,
    pub outputs: Option<Vec<InputOutputType>>,
    pub process_steps: Option<Vec<ProcessStepTypeElement>>,
    pub transitions: Option<Vec<TransitionTypeElement>>,
}

/// Computation describes the computations involved in the process, in any form desired by
/// the user (these are informational rather than machine-actionable), and so may be supplied
/// in multiple, parallel-language versions.
///
/// ComputationType describes a computation in a process.
#[derive(Debug)]
pub struct ComputationType {
    pub annotations: Option<Vec<AnnotationType>>,
    pub description: String,
    pub descriptions: Option<HashMap<String, Option<serde_json::Value>>>,
    pub local_id: Option<String>,
    pub software_language: Option<String>,
    pub software_package: Option<String>,
    pub software_version: Option<String>,
}

/// Input references an object which is an input to the process step.
///
/// InputOutputType describes the structure of an input or output to a process step. It
/// provides a reference to the object that is the input or output.
///
/// Output references an object which is an output form the process step.
#[derive(Debug)]
pub struct InputOutputType {
    pub annotations: Option<Vec<AnnotationType>>,
    pub local_id: Option<String>,
    /// ObjectReference is an abstract substitution head that references (through a urn) the
    /// object that is an input or output. It is substituted with a concrete reference to an
    /// explicit object type.
    pub object_reference: String,
}

/// Transition describes the next process steps. Each transition in a process step should be
/// evaluated, allowing for multiple process step branches from a single process step.
///
/// TransitionType describes the details of a transition, which is an expression in a textual
/// or formalised way of the transformation of data between two specific operations performed
/// on the data.
///
/// IdentifiableType is an abstract base type for all identifiable objects.
///
/// AnnotableType is an abstract base type used for all annotable artefacts. Any type that
/// provides for annotations should extend this type.
#[derive(Debug)]
pub struct TransitionTypeElement {
    /// Condition is a textual description of the conditions to be met in order for the target
    /// step to be proceeded to. It is informational only (not machine-actionable), provided in
    /// the best-match language.
    pub condition: String,
    /// TargetStep references (through a urn) a process step within the process that should be
    /// transitioned to, should the conditions described be met.
    pub target_step: String,
    pub id: Option<String>,
    pub annotations: Option<Vec<AnnotationType>>,
    /// Links field is an array of link objects. Also used to specify the URI or the URN to
    /// itself. If appropriate, a collection of links to additional external resources.
    pub links: Option<Vec<Link>>,
    /// Condition is a textual description of the conditions to be met in order for the target
    /// step to be proceeded to. It is informational only (not machine-actionable), and may be
    /// supplied in multiple, parallel-language form.
    pub conditions: Option<HashMap<String, Option<serde_json::Value>>>,
    pub local_id: Option<String>,
}

/// provisionAgreement provides the details of a provision agreement, which is an agreement
/// for a data provider to report data or reference metadata against a flow.
///
/// ProvisionAgreementType describes the structure of a provision agreement. A provision
/// agreement defines an agreement for a data provider to report data or reference metadata
/// against a flow. Attributes which describe how the registry must behave when data or
/// metadata is registered against this provision agreement are supplied.
///
/// MaintainableType is an abstract base type for all maintainable objects.
///
/// NameableType is an abstract base type for all nameable objects.
///
/// IdentifiableType is an abstract base type for all identifiable objects.
///
/// AnnotableType is an abstract base type used for all annotable artefacts. Any type that
/// provides for annotations should extend this type.
#[derive(Debug)]
pub struct ProvisionAgreementTypeElement {
    pub id: String,
    pub agency_id: String,
    pub name: String,
    pub version: Option<String>,
    pub annotations: Option<Vec<AnnotationType>>,
    /// Links field is an array of link objects. Also used to specify the URI or the URN to
    /// itself. If appropriate, a collection of links to additional external resources.
    pub links: Option<Vec<Link>>,
    pub description: Option<String>,
    pub descriptions: Option<HashMap<String, Option<serde_json::Value>>>,
    pub names: Option<HashMap<String, Option<serde_json::Value>>>,
    pub is_external_reference: Option<bool>,
    pub is_final: Option<bool>,
    pub valid_from: Option<String>,
    pub valid_to: Option<String>,
    /// DataProvider is a urn reference to a pre-existing data (or metadata) provider in the
    /// registry.
    pub data_provider: String,
    /// DataflowReference provides a urn reference to a pre-existing structure usage (i.e. a
    /// dataflow or metadataflow) in the registry.
    pub structure_usage: String,
}

/// reportingTaxonomy provides the details of a reporting taxonomy, which is a scheme which
/// defines the composition structure of a data report where each component can be described
/// by an independent data or metadata flow definition.
///
/// ReportingTaxonomyType describes the structure of a reporting taxonomy, which is a scheme
/// which defines the composition structure of a data report where each component can be
/// described by an independent structure or structure usage description.
///
/// MaintainableType is an abstract base type for all maintainable objects.
///
/// NameableType is an abstract base type for all nameable objects.
///
/// IdentifiableType is an abstract base type for all identifiable objects.
///
/// AnnotableType is an abstract base type used for all annotable artefacts. Any type that
/// provides for annotations should extend this type.
#[derive(Debug)]
pub struct ReportingTaxonomyTypeElement {
    pub id: String,
    pub agency_id: String,
    pub name: String,
    pub version: Option<String>,
    pub annotations: Option<Vec<AnnotationType>>,
    /// Links field is an array of link objects. Also used to specify the URI or the URN to
    /// itself. If appropriate, a collection of links to additional external resources.
    pub links: Option<Vec<Link>>,
    pub description: Option<String>,
    pub descriptions: Option<HashMap<String, Option<serde_json::Value>>>,
    pub names: Option<HashMap<String, Option<serde_json::Value>>>,
    pub is_external_reference: Option<bool>,
    pub is_final: Option<bool>,
    pub valid_from: Option<String>,
    pub valid_to: Option<String>,
    pub is_partial: Option<bool>,
    pub reporting_categories: Option<Vec<ReportingCategoryTypeElement>>,
}

/// ReportingCateogry defines a reporting category, which is used to group structure usages
/// into useful sub-packages.
///
/// ReportingCategoryType describes the structure of a reporting category, which groups
/// structure usages into useful sub-packages. Sub ordinate reporting categories can be
/// nested within the category definition.
///
/// NameableType is an abstract base type for all nameable objects.
///
/// IdentifiableType is an abstract base type for all identifiable objects.
///
/// AnnotableType is an abstract base type used for all annotable artefacts. Any type that
/// provides for annotations should extend this type.
#[derive(Debug)]
pub struct ReportingCategoryTypeElement {
    pub name: String,
    pub id: Option<String>,
    pub annotations: Option<Vec<AnnotationType>>,
    /// Links field is an array of link objects. Also used to specify the URI or the URN to
    /// itself. If appropriate, a collection of links to additional external resources.
    pub links: Option<Vec<Link>>,
    pub description: Option<String>,
    pub descriptions: Option<HashMap<String, Option<serde_json::Value>>>,
    pub names: Option<HashMap<String, Option<serde_json::Value>>>,
    pub provisioning_metadata: Option<Vec<String>>,
    pub reporting_categories: Option<Vec<ReportingCategoryTypeElement>>,
    pub structural_metadata: Option<Vec<String>>,
}

/// CategorySchemeMap links a source and target categories from different schemes where there
/// is a semantic equivalence between them.
///
/// CategorySchemeMapType defines the structure of a map which identifies relationships
/// between categories in different category schemes.
///
/// NameableType is an abstract base type for all nameable objects.
///
/// IdentifiableType is an abstract base type for all identifiable objects.
///
/// AnnotableType is an abstract base type used for all annotable artefacts. Any type that
/// provides for annotations should extend this type.
#[derive(Debug)]
pub struct CategorySchemeMapTypeElement {
    pub name: String,
    pub id: Option<String>,
    pub annotations: Option<Vec<AnnotationType>>,
    /// Links field is an array of link objects. Also used to specify the URI or the URN to
    /// itself. If appropriate, a collection of links to additional external resources.
    pub links: Option<Vec<Link>>,
    pub description: Option<String>,
    pub descriptions: Option<HashMap<String, Option<serde_json::Value>>>,
    pub names: Option<HashMap<String, Option<serde_json::Value>>>,
    pub category_maps: Vec<CategoryMapType>,
    /// Urn reference to a category scheme object.
    pub source: String,
    /// Urn reference to a category scheme object.
    pub target: String,
}

/// CategoryMap defines the structure of a map which identifies relationships between
/// categories in different category schemes.
///
/// CategoryMapType defines the structure for mapping two categories. A local reference is
/// provided both the source and target category.
#[derive(Debug)]
pub struct CategoryMapType {
    pub annotations: Option<Vec<AnnotationType>>,
    /// Urn reference to a category where the identification of the category scheme which defines
    /// it is contained in another context.
    pub source: String,
    /// Urn reference to a category where the identification of the category scheme which defines
    /// it is contained in another context.
    pub target: String,
}

/// CodelistMap links a source and target codes from different lists where there is a
/// semantic equivalence between them.
///
/// CodelistMapType defines the structure of a map which identifies relationships between
/// codes in different codelists.
///
/// NameableType is an abstract base type for all nameable objects.
///
/// IdentifiableType is an abstract base type for all identifiable objects.
///
/// AnnotableType is an abstract base type used for all annotable artefacts. Any type that
/// provides for annotations should extend this type.
#[derive(Debug)]
pub struct CodelistMapTypeElement {
    pub name: String,
    pub id: Option<String>,
    pub annotations: Option<Vec<AnnotationType>>,
    /// Links field is an array of link objects. Also used to specify the URI or the URN to
    /// itself. If appropriate, a collection of links to additional external resources.
    pub links: Option<Vec<Link>>,
    pub description: Option<String>,
    pub descriptions: Option<HashMap<String, Option<serde_json::Value>>>,
    pub names: Option<HashMap<String, Option<serde_json::Value>>>,
    pub code_maps: Vec<CodeMapType>,
    /// Source provides a urn reference to a codelist.
    pub source: String,
    /// Target provides a urn reference to a codelist.
    pub target: String,
}

/// CodeMap defines the structure of a map which identifies relationships between codes in
/// different codelists.
///
/// CodeMapType defines the structure for mapping two codes. A local reference is provided
/// both the source and target code.
#[derive(Debug)]
pub struct CodeMapType {
    pub annotations: Option<Vec<AnnotationType>>,
    /// Urn reference to a code where the identification of the codelist which defines it is
    /// contained in another context.
    pub source: String,
    /// Urn reference to a code where the identification of the codelist which defines it is
    /// contained in another context.
    pub target: String,
}

/// ConceptSchemeMap links a source and target concepts from different schemes where there is
/// a semantic equivalence between them.
///
/// ConceptSchemeMapType defines the structure of a map which identifies relationships
/// between concepts in different concept schemes.
///
/// NameableType is an abstract base type for all nameable objects.
///
/// IdentifiableType is an abstract base type for all identifiable objects.
///
/// AnnotableType is an abstract base type used for all annotable artefacts. Any type that
/// provides for annotations should extend this type.
#[derive(Debug)]
pub struct ConceptSchemeMapTypeElement {
    pub name: String,
    pub id: Option<String>,
    pub annotations: Option<Vec<AnnotationType>>,
    /// Links field is an array of link objects. Also used to specify the URI or the URN to
    /// itself. If appropriate, a collection of links to additional external resources.
    pub links: Option<Vec<Link>>,
    pub description: Option<String>,
    pub descriptions: Option<HashMap<String, Option<serde_json::Value>>>,
    pub names: Option<HashMap<String, Option<serde_json::Value>>>,
    pub concept_maps: Vec<ConceptMapType>,
    /// Urn reference to a concept scheme object.
    pub source: String,
    /// Urn reference to a concept scheme object.
    pub target: String,
}

/// ConceptMap defines the structure of a map which identifies relationships between concepts
/// in different concept schemes.
///
/// ConceptMapType defines the structure for mapping two concepts. A local reference is
/// provided both the source and target concept.
#[derive(Debug)]
pub struct ConceptMapType {
    pub annotations: Option<Vec<AnnotationType>>,
    /// Urn reference to a local concept.
    pub source: String,
    /// Urn reference to a local concept.
    pub target: String,
}

/// HybridCodelistMap links a source and target codes from different codelists, which may be
/// hierarchical or flat, where there is a semantic equivalence between them.
///
/// HybridCodelistMapType defines the structure of a map which relates codes (possibly
/// hierarchical) from different code lists.
///
/// NameableType is an abstract base type for all nameable objects.
///
/// IdentifiableType is an abstract base type for all identifiable objects.
///
/// AnnotableType is an abstract base type used for all annotable artefacts. Any type that
/// provides for annotations should extend this type.
#[derive(Debug)]
pub struct HybridCodelistMapTypeElement {
    pub name: String,
    pub id: Option<String>,
    pub annotations: Option<Vec<AnnotationType>>,
    /// Links field is an array of link objects. Also used to specify the URI or the URN to
    /// itself. If appropriate, a collection of links to additional external resources.
    pub links: Option<Vec<Link>>,
    pub description: Option<String>,
    pub descriptions: Option<HashMap<String, Option<serde_json::Value>>>,
    pub names: Option<HashMap<String, Option<serde_json::Value>>>,
    pub hybrid_code_maps: Vec<HybridCodeMapType>,
    /// Source provides a urn reference to either a codelist or a hierarchical codelist, from
    /// which the codes are to be mapped.
    pub source: String,
    /// Target provides a urn reference to either a codelist or a hierarchical codelist, to which
    /// the source codes are to be mapped.
    pub target: String,
}

/// HybridCodeMap defines the relationship of a code in the source list to code in the target
/// list.
///
/// CodeMapType defines the structure for associating a code from a source codelist to a code
/// in a target codelist. Note that either of these may come from a hierarchical codelist.
#[derive(Debug)]
pub struct HybridCodeMapType {
    pub annotations: Option<Vec<AnnotationType>>,
    /// Source provides a local reference to the code which is to be mapped. If this code is from
    /// a hierarchical codelist, a reference to the hierarchy in which it is defined must also be
    /// provided.
    pub source: String,
    /// Target provides a local reference to the code to which the source code is mapped. If this
    /// code is from a hierarchical codelist, a reference to the hierarchy in which it is defined
    /// must also be provided.
    pub target: String,
}

/// OrganisationSchemeMap links a source and target organisations from different schemes
/// where there is a semantic equivalence between them. Organisations are mapped without
/// regard to role.
///
/// OrganisationSchemeMapType defines the structure of a map which identifies relationships
/// between organisations in different organisation schemes.
///
/// NameableType is an abstract base type for all nameable objects.
///
/// IdentifiableType is an abstract base type for all identifiable objects.
///
/// AnnotableType is an abstract base type used for all annotable artefacts. Any type that
/// provides for annotations should extend this type.
#[derive(Debug)]
pub struct OrganisationSchemeMapTypeElement {
    pub name: String,
    pub id: Option<String>,
    pub annotations: Option<Vec<AnnotationType>>,
    /// Links field is an array of link objects. Also used to specify the URI or the URN to
    /// itself. If appropriate, a collection of links to additional external resources.
    pub links: Option<Vec<Link>>,
    pub description: Option<String>,
    pub descriptions: Option<HashMap<String, Option<serde_json::Value>>>,
    pub names: Option<HashMap<String, Option<serde_json::Value>>>,
    pub organisation_maps: Vec<OrganisationMapType>,
    /// Urn reference to an organisation scheme regardless of the specific type.
    pub source: String,
    /// Urn reference to an organisation scheme regardless of the specific type.
    pub target: String,
}

/// OrganisationMap relates a source organisation to a target organisation.
///
/// OrganisationMapType defines the structure for mapping two organisations. A local
/// reference is provided both the source and target organisation.
#[derive(Debug)]
pub struct OrganisationMapType {
    pub annotations: Option<Vec<AnnotationType>>,
    /// Urn reference to an organisation, regardless of type, where the identification of the
    /// organisation scheme which defines it is contained in another context.
    pub source: String,
    /// Urn reference to an organisation, regardless of type, where the identification of the
    /// organisation scheme which defines it is contained in another context.
    pub target: String,
}

/// ReportingTaxonomyMap links a source and target reporting categories from different
/// taxonomies where there is a semantic equivalence between them.
///
/// ReportingTaxonomyMapType defines the structure of a map which identifies relationships
/// between reporting categories in different reporting taxonomies.
///
/// NameableType is an abstract base type for all nameable objects.
///
/// IdentifiableType is an abstract base type for all identifiable objects.
///
/// AnnotableType is an abstract base type used for all annotable artefacts. Any type that
/// provides for annotations should extend this type.
#[derive(Debug)]
pub struct ReportingTaxonomyMapTypeElement {
    pub name: String,
    pub id: Option<String>,
    pub annotations: Option<Vec<AnnotationType>>,
    /// Links field is an array of link objects. Also used to specify the URI or the URN to
    /// itself. If appropriate, a collection of links to additional external resources.
    pub links: Option<Vec<Link>>,
    pub description: Option<String>,
    pub descriptions: Option<HashMap<String, Option<serde_json::Value>>>,
    pub names: Option<HashMap<String, Option<serde_json::Value>>>,
    pub reporting_category_maps: Vec<ReportingCategoryMapType>,
    /// Urn reference to a reporting taxonomy object.
    pub source: String,
    /// Urn reference to a reporting taxonomy object.
    pub target: String,
}

/// ReportingCategoryMap defines the structure of a map which identifies relationships
/// between reporting categories in different reporting taxonomies.
///
/// ReportingCategoryMapType defines the structure for mapping two reporting categories. A
/// local reference is provided both the source and target category.
#[derive(Debug)]
pub struct ReportingCategoryMapType {
    pub annotations: Option<Vec<AnnotationType>>,
    /// Urn reference to a reporting category.
    pub source: String,
    /// Urn reference to a reporting category.
    pub target: String,
}

/// ValueMap provides for a simple mapping of a source value to a target value without having
/// to define a codelist map. This is available to allow mappings in situations such as the
/// source or target is not being formally coded, or the source and/or target being a measure
/// dimension in which case its representation is not mappable from a codelist map.
///
/// ValueMapType contains a collection of value mappings, which give a source and target
/// value.
#[derive(Debug)]
pub struct ValueMapType {
    pub value_mappings: Vec<ValueMappingType>,
}

/// ValueMapping provides a source and target value for the purpose of mapping.
///
/// ValueMappingType specifies the relationship between two values as a source and target.
#[derive(Debug)]
pub struct ValueMappingType {
    pub source: String,
    pub target: String,
}

/// A meta object that contains non-standard meta-information and basic technical information
/// about the message, such as when it was prepared and who has sent it.
#[derive(Debug)]
pub struct Meta {
    /// Array of strings containing the identifyer of all languages used anywhere in the message
    /// for localized elements, and thus the languages of the intended audience, representaing in
    /// an array format the same information than the http Content-Language response header, e.g.
    /// "en, fr-fr". See IETF Language Tags: https://tools.ietf.org/html/rfc5646#section-2.1. The
    /// array's first element indicates the main language used in the message for localized
    /// elements. The usage of this property is recommended.
    pub content_languages: Option<Vec<String>>,
    /// Unique string assigned by the sender that identifies the message for further references.
    pub id: String,
    pub links: Option<Vec<Link>>,
    /// Name provides a name for the transmission. Multiple instances allow for parallel language
    /// values.
    pub name: Option<String>,
    /// Name provides a name for the transmission. Multiple instances allow for parallel language
    /// values.
    pub names: Option<HashMap<String, Option<serde_json::Value>>>,
    /// A timestamp indicating when the message was prepared. Values must follow the ISO 8601
    /// syntax for combined dates and times, including time zone.
    pub prepared: String,
    /// Receiver is information about the part(y/ies) that is/are the intended recipient(s) of
    /// the message. This can be useful if the WS requires authentication.
    pub receivers: Option<Vec<Party>>,
    /// Contains the URL to the schema allowing to validate the message. This also allows
    /// identifying the version of SDMX-JSON format used in this message. Providing the link to
    /// the SDMX-JSON schema is recommended.
    pub schema: Option<String>,
    /// Sender is information about the party that is transmitting the message.
    pub sender: Party,
    /// Test indicates whether the message is for test purposes or not. False for normal messages.
    pub test: Option<bool>,
}

/// Sender contains information about the party that is transmitting the message.
///
/// Sender is information about the party that is transmitting the message.
#[derive(Debug)]
pub struct Party {
    /// Contact provides contact information for the party in regard to the transmission of the
    /// message.
    pub contacts: Option<Vec<ContactType>>,
    /// The id holds the identification of the party.
    pub id: String,
    /// Name is a human-readable name of the party.
    pub name: Option<String>,
    /// Name is a human-readable name of the party.
    pub names: Option<HashMap<String, Option<serde_json::Value>>>,
}

/// OccurenceType is used to express the maximum occurrence of an object. It combines an
/// integer, greater than 1, and the literal text, "unbounded", for objects which have no
/// upper limit on its occurrence.
#[derive(Debug)]
pub enum OccurenceType {
    Enum(OccurenceTypeEnum),
    Integer(i64),
}

/// CodeDataType is a restriction of the basic data types that are applicable to codes.
/// Although some of the higher level time period formats are perimitted, it should be noted
/// that any value which contains time (which includes a time zone offset) is not allowable
/// as a code identifier.
#[derive(Debug, Clone, Copy, PartialEq, Eq)]
pub enum CodeDataType {
    Alpha,
    AlphaNumeric,
    BasicTimePeriod,
    BigInteger,
    Boolean,
    Count,
    Day,
    Duration,
    ExclusiveValueRange,
    GregorianDay,
    GregorianTimePeriod,
    GregorianYear,
    GregorianYearMonth,
    InclusiveValueRange,
    Incremental,
    Integer,
    Long,
    Month,
    MonthDay,
    Numeric,
    ObservationalTimePeriod,
    ReportingDay,
    ReportingMonth,
    ReportingQuarter,
    ReportingSemester,
    ReportingTimePeriod,
    ReportingTrimester,
    ReportingWeek,
    ReportingYear,
    Short,
    StandardTimePeriod,
    String,
    Uri,
}

/// BasicComponentDataType provides an enumerated list of the types of characters allowed in
/// the textType attribute for all non-target object components.
#[derive(Debug, Clone, Copy, PartialEq, Eq)]
pub enum BasicComponentDataType {
    Alpha,
    AlphaNumeric,
    BasicTimePeriod,
    BigInteger,
    Boolean,
    Count,
    DateTime,
    Day,
    Decimal,
    Double,
    Duration,
    ExclusiveValueRange,
    Float,
    GregorianDay,
    GregorianTimePeriod,
    GregorianYear,
    GregorianYearMonth,
    InclusiveValueRange,
    Incremental,
    Integer,
    Long,
    Month,
    MonthDay,
    Numeric,
    ObservationalTimePeriod,
    ReportingDay,
    ReportingMonth,
    ReportingQuarter,
    ReportingSemester,
    ReportingTimePeriod,
    ReportingTrimester,
    ReportingWeek,
    ReportingYear,
    Short,
    StandardTimePeriod,
    String,
    Time,
    TimeRange,
    Uri,
    Xhtml,
}

/// ContentConstraintTypeCodeType defines a list of types for a content constraint. A content
/// constraint can state which data is present or which content is allowed for the constraint
/// attachment. If 'Allowed' then the constraint contains the allowed values for attachable
/// object. If 'Actual' then the constraints contains the actual data present for the
/// attachable object.
#[derive(Debug, Clone, Copy, PartialEq, Eq)]
pub enum ContentConstraintTypeCodeType {
    Actual,
    Allowed,
}

/// UsageStatusType provides a list of enumerated types for indicating whether reporting a
/// given attribute is mandatory or conditional.
#[derive(Debug, Clone, Copy, PartialEq, Eq)]
pub enum UsageStatusType {
    Conditional,
    Mandatory,
}

/// SimpleDataType restricts BasicComponentDataType to specify the allowable data types for a
/// data structure definition component. The XHTML representation is removed as a possible
/// type.
#[derive(Debug, Clone, Copy, PartialEq, Eq)]
pub enum SimpleDataType {
    Alpha,
    AlphaNumeric,
    BasicTimePeriod,
    BigInteger,
    Boolean,
    Count,
    DateTime,
    Day,
    Decimal,
    Double,
    Duration,
    ExclusiveValueRange,
    Float,
    GregorianDay,
    GregorianTimePeriod,
    GregorianYear,
    GregorianYearMonth,
    InclusiveValueRange,
    Incremental,
    Integer,
    Long,
    Month,
    MonthDay,
    Numeric,
    ObservationalTimePeriod,
    ReportingDay,
    ReportingMonth,
    ReportingQuarter,
    ReportingSemester,
    ReportingTimePeriod,
    ReportingTrimester,
    ReportingWeek,
    ReportingYear,
    Short,
    StandardTimePeriod,
    String,
    Time,
    TimeRange,
    Uri,
}

/// The type attribute identifies whether then dimension is a measure dimension, the time
/// dimension, or a regular dimension. Although these are all apparent by the element names,
/// this attribute allows for each dimension to be processed independent of its element as
/// well as maintaining the restriction of only one measure and time dimension while still
/// allowing dimension to occur in any order.
///
/// DimensionTypeType enumerates the sub-classes of a dimension.
///
/// The type attribute identifies whether the dimension is a measure dimension, the time
/// dimension, or a regular dimension. Although these are all apparent by the element names,
/// this attribute allows for each dimension to be processed independent of its element as
/// well as maintaining the restriction of only one measure and time dimension while still
/// allowing dimension to occur in any order.
#[derive(Debug, Clone, Copy, PartialEq, Eq)]
pub enum DimensionTypeType {
    Dimension,
    MeasureDimension,
    TimeDimension,
}

/// TimeDataType restricts SimpleDataType to specify the allowable data types for
/// representing a time value.
#[derive(Debug, Clone, Copy, PartialEq, Eq)]
pub enum TimeDataType {
    BasicTimePeriod,
    DateTime,
    GregorianDay,
    GregorianTimePeriod,
    GregorianYear,
    GregorianYearMonth,
    ObservationalTimePeriod,
    ReportingDay,
    ReportingMonth,
    ReportingQuarter,
    ReportingSemester,
    ReportingTimePeriod,
    ReportingTrimester,
    ReportingWeek,
    ReportingYear,
    StandardTimePeriod,
    TimeRange,
}

/// SimpleCodeDataType restricts SimpleDataType to specify the allowable data types for a
/// simple code. The possible values are simply Alpha, AlphaNumeric, or Numeric.
#[derive(Debug, Clone, Copy, PartialEq, Eq)]
pub enum SimpleCodeDataType {
    Alpha,
    AlphaNumeric,
    Numeric,
}

/// TargetObjectDataType restricts DataType to specify the allowable data types for
/// representing a target object value.
#[derive(Debug, Clone, Copy, PartialEq, Eq)]
pub enum TargetObjectDataType {
    AttachmentConstraintReference,
    DataSetReference,
    IdentifiableReference,
    KeyValues,
}

/// ObjectTypeCodelistType provides an enumeration of all objects outside of the base
/// infomration model class. This includes some abstract object types such as Organsiation
/// and Constraint.
#[derive(Debug, Clone, Copy, PartialEq, Eq)]
pub enum ObjectTypeCodelistType {
    Agency,
    AgencyScheme,
    Any,
    AttachmentConstraint,
    Attribute,
    AttributeDescriptor,
    Categorisation,
    Category,
    CategoryScheme,
    CategorySchemeMap,
    Code,
    CodeMap,
    Codelist,
    CodelistMap,
    ComponentMap,
    Concept,
    ConceptMap,
    ConceptScheme,
    ConceptSchemeMap,
    Constraint,
    ConstraintTarget,
    ContentConstraint,
    DataConsumer,
    DataConsumerScheme,
    DataProvider,
    DataProviderScheme,
    DataSetTarget,
    DataStructure,
    Dataflow,
    Dimension,
    DimensionDescriptor,
    DimensionDescriptorValuesTarget,
    GroupDimensionDescriptor,
    HierarchicalCode,
    HierarchicalCodelist,
    Hierarchy,
    HybridCodeMap,
    HybridCodelistMap,
    IdentifiableObjectTarget,
    Level,
    MeasureDescriptor,
    MeasureDimension,
    MetadataAttribute,
    MetadataSet,
    MetadataStructure,
    MetadataTarget,
    Metadataflow,
    Organisation,
    OrganisationMap,
    OrganisationScheme,
    OrganisationSchemeMap,
    OrganisationUnit,
    OrganisationUnitScheme,
    PrimaryMeasure,
    Process,
    ProcessStep,
    ProvisionAgreement,
    ReportPeriodTarget,
    ReportStructure,
    ReportingCategory,
    ReportingCategoryMap,
    ReportingTaxonomy,
    ReportingTaxonomyMap,
    ReportingYearStartDay,
    StructureMap,
    StructureSet,
    TimeDimension,
    Transition,
}

/// UnboundedCodeType provides single textual value of "unbounded", for use in OccurentType.
#[derive(Debug, Clone, Copy, PartialEq, Eq)]
pub enum OccurenceTypeEnum {
    Unbounded,
}

/// DataTypeType provides an enumerated list of the types of data formats allowed as the for
/// the representation of an object.
#[derive(Debug, Clone, Copy, PartialEq, Eq)]
pub enum DataType {
    Alpha,
    AlphaNumeric,
    AttachmentConstraintReference,
    BasicTimePeriod,
    BigInteger,
    Boolean,
    Count,
    DataSetReference,
    DateTime,
    Day,
    Decimal,
    Double,
    Duration,
    ExclusiveValueRange,
    Float,
    GregorianDay,
    GregorianTimePeriod,
    GregorianYear,
    GregorianYearMonth,
    IdentifiableReference,
    InclusiveValueRange,
    Incremental,
    Integer,
    KeyValues,
    Long,
    Month,
    MonthDay,
    Numeric,
    ObservationalTimePeriod,
    ReportingDay,
    ReportingMonth,
    ReportingQuarter,
    ReportingSemester,
    ReportingTimePeriod,
    ReportingTrimester,
    ReportingWeek,
    ReportingYear,
    Short,
    StandardTimePeriod,
    String,
    Time,
    TimeRange,
    Uri,
    Xhtml,
}

/// ToValueType notes whether the value, name, or description of the source value should be
/// used in the target value.
///
/// ToValueTypeType provides an enumeration of available text-equivalents for translation of
/// coded values into textual formats.
#[derive(Debug, Clone, Copy, PartialEq, Eq)]
pub enum ToValueTypeType {
    Description,
    Name,
    Value,
}

} // verus!
