//! StreamlineUser: a user within a Streamline cluster.

use crate::conditions::ConditionView;
use crate::objects::{ResourceMeta, ResourceMetaView};
use vstd::prelude::*;

verus! {

/// A StreamlineUser resource.
#[derive(Debug, PartialEq, Eq)]
pub struct StreamlineUser {
    pub metadata: ResourceMeta,
    pub spec: UserSpec,
    pub status: Option<UserStatus>,
}

/// What a [`StreamlineUser`] holds, over characters and sequences.
#[verifier::ext_equal]
pub struct StreamlineUserView {
    pub metadata: ResourceMetaView,
    pub spec: UserSpecView,
    pub status: Option<UserStatusView>,
}

impl DeepView for StreamlineUser {
    type V = StreamlineUserView;

    open spec fn deep_view(&self) -> StreamlineUserView {
        StreamlineUserView {
            metadata: self.metadata.deep_view(),
            spec: self.spec.deep_view(),
            status: self.status.deep_view(),
        }
    }
}

impl Clone for StreamlineUser {
    fn clone(&self) -> (copy: Self)
        ensures
            copy.deep_view() == self.deep_view(),
    {
        StreamlineUser {
            metadata: self.metadata.clone(),
            spec: self.spec.clone(),
            status: self.status.clone(),
        }
    }
}

/// Specification of a StreamlineUser.
#[derive(Debug, PartialEq, Eq)]
pub struct UserSpec {
    /// Reference to the StreamlineCluster
    pub cluster_ref: String,
    /// Authentication configuration
    pub authentication: UserAuthentication,
    /// Authorization/permissions configuration
    pub authorization: UserAuthorization,
    /// Quotas for the user
    pub quotas: Option<UserQuotas>,
}

/// What a [`UserSpec`] holds, over characters and sequences.
#[verifier::ext_equal]
pub struct UserSpecView {
    pub cluster_ref: Seq<char>,
    pub authentication: UserAuthenticationView,
    pub authorization: UserAuthorizationView,
    pub quotas: Option<UserQuotasView>,
}

impl DeepView for UserSpec {
    type V = UserSpecView;

    open spec fn deep_view(&self) -> UserSpecView {
        UserSpecView {
            cluster_ref: self.cluster_ref@,
            authentication: self.authentication.deep_view(),
            authorization: self.authorization.deep_view(),
            quotas: self.quotas.deep_view(),
        }
    }
}

impl Clone for UserSpec {
    fn clone(&self) -> (copy: Self)
        ensures
            copy.deep_view() == self.deep_view(),
    {
        UserSpec {
            cluster_ref: self.cluster_ref.clone(),
            authentication: self.authentication.clone(),
            authorization: self.authorization.clone(),
            quotas: self.quotas.clone(),
        }
    }
}

/// User authentication configuration
#[derive(Debug, PartialEq, Eq)]
pub struct UserAuthentication {
    /// Authentication type (scram-sha-256, scram-sha-512, plain)
    pub type_: AuthenticationType,
    /// Password configuration
    pub credentials: Option<UserCredentials>,
}

/// What a [`UserAuthentication`] holds, over characters and sequences.
#[verifier::ext_equal]
pub struct UserAuthenticationView {
    pub type_: AuthenticationType,
    pub credentials: Option<UserCredentialsView>,
}

impl DeepView for UserAuthentication {
    type V = UserAuthenticationView;

    open spec fn deep_view(&self) -> UserAuthenticationView {
        UserAuthenticationView {
            type_: self.type_,
            credentials: self.credentials.deep_view(),
        }
    }
}

impl Clone for UserAuthentication {
    fn clone(&self) -> (copy: Self)
        ensures
            copy.deep_view() == self.deep_view(),
    {
        UserAuthentication {
            type_: self.type_,
            credentials: self.credentials.clone(),
        }
    }
}

/// Authentication type
#[derive(Clone, Copy, Debug, PartialEq, Eq, Structural)]
pub enum AuthenticationType {
    /// SCRAM-SHA-256 authentication
    ScramSha256,
    /// SCRAM-SHA-512 authentication
    ScramSha512,
    /// Plain authentication (not recommended for production)
    Plain,
    /// TLS client certificate authentication
    TlsClientAuth,
}

impl DeepView for AuthenticationType {
    type V = Self;

    open spec fn deep_view(&self) -> Self {
        *self
    }
}

/// User credentials configuration
#[derive(Debug, PartialEq, Eq)]
pub struct UserCredentials {
    /// Reference to a secret containing the password
    pub secret_ref: Option<SecretReference>,
    /// Password value (for simple setups, prefer secretRef)
    pub value: Option<String>,
}

/// What a [`UserCredentials`] holds, over characters and sequences.
#[verifier::ext_equal]
pub struct UserCredentialsView {
    pub secret_ref: Option<SecretReferenceView>,
    pub value: Option<Seq<char>>,
}

impl DeepView for UserCredentials {
    type V = UserCredentialsView;

    open spec fn deep_view(&self) -> UserCredentialsView {
        UserCredentialsView {
            secret_ref: self.secret_ref.deep_view(),
            value: self.value.deep_view(),
        }
    }
}

impl Clone for UserCredentials {
    fn clone(&self) -> (copy: Self)
        ensures
            copy.deep_view() == self.deep_view(),
    {
        UserCredentials {
            secret_ref: self.secret_ref.clone(),
            value: self.value.clone(),
        }
    }
}

/// Reference to a Kubernetes secret
#[derive(Debug, PartialEq, Eq)]
pub struct SecretReference {
    /// Name of the secret
    pub name: String,
    /// Key within the secret containing the password
    pub key: String,
}

/// What a [`SecretReference`] holds, over characters and sequences.
#[verifier::ext_equal]
pub struct SecretReferenceView {
    pub name: Seq<char>,
    pub key: Seq<char>,
}

impl DeepView for SecretReference {
    type V = SecretReferenceView;

    open spec fn deep_view(&self) -> SecretReferenceView {
        SecretReferenceView {
            name: self.name@,
            key: self.key@,
        }
    }
}

impl Clone for SecretReference {
    fn clone(&self) -> (copy: Self)
        ensures
            copy.deep_view() == self.deep_view(),
    {
        SecretReference {
            name: self.name.clone(),
            key: self.key.clone(),
        }
    }
}

/// User authorization configuration
#[derive(Debug, PartialEq, Eq)]
pub struct UserAuthorization {
    /// Authorization type
    pub type_: AuthorizationType,
    /// ACL rules for the user
    pub acls: Vec<UserAcl>,
    /// Role bindings for RBAC
    pub roles: Vec<String>,
}

/// What a [`UserAuthorization`] holds, over characters and sequences.
#[verifier::ext_equal]
pub struct UserAuthorizationView {
    pub type_: AuthorizationType,
    pub acls: Seq<UserAclView>,
    pub roles: Seq<Seq<char>>,
}

impl DeepView for UserAuthorization {
    type V = UserAuthorizationView;

    open spec fn deep_view(&self) -> UserAuthorizationView {
        UserAuthorizationView {
            type_: self.type_,
            acls: self.acls.deep_view(),
            roles: self.roles.deep_view(),
        }
    }
}

impl Clone for UserAuthorization {
    fn clone(&self) -> (copy: Self)
        ensures
            copy.deep_view() == self.deep_view(),
    {
        let copy = UserAuthorization {
            type_: self.type_,
            acls: self.acls.clone(),
            roles: self.roles.clone(),
        };
        assert(copy.acls.deep_view() =~= self.acls.deep_view());
        assert(copy.roles.deep_view() =~= self.roles.deep_view());
        copy
    }
}

/// Authorization type
#[derive(Clone, Copy, Debug, PartialEq, Eq, Structural)]
pub enum AuthorizationType {
    /// Simple ACL-based authorization
    Simple,
    /// Role-based access control
    Rbac,
}

impl DeepView for AuthorizationType {
    type V = Self;

    open spec fn deep_view(&self) -> Self {
        *self
    }
}

/// ACL rule for the user
#[derive(Debug, PartialEq, Eq)]
pub struct UserAcl {
    /// Resource type (topic, group, cluster, transactional-id)
    pub resource_type: ResourceType,
    /// Resource name (exact or prefixed)
    pub resource_name: String,
    /// Pattern type (literal, prefixed)
    pub pattern_type: PatternType,
    /// Operations to allow
    pub operations: Vec<UserPermission>,
    /// Permission type (allow or deny)
    pub permission: PermissionType,
}

/// What a [`UserAcl`] holds, over characters and sequences.
#[verifier::ext_equal]
pub struct UserAclView {
    pub resource_type: ResourceType,
    pub resource_name: Seq<char>,
    pub pattern_type: PatternType,
    pub operations: Seq<UserPermission>,
    pub permission: PermissionType,
}

impl DeepView for UserAcl {
    type V = UserAclView;

    open spec fn deep_view(&self) -> UserAclView {
        UserAclView {
            resource_type: self.resource_type,
            resource_name: self.resource_name@,
            pattern_type: self.pattern_type,
            operations: self.operations.deep_view(),
            permission: self.permission,
        }
    }
}

impl Clone for UserAcl {
    fn clone(&self) -> (copy: Self)
        ensures
            copy.deep_view() == self.deep_view(),
    {
        let copy = UserAcl {
            resource_type: self.resource_type,
            resource_name: self.resource_name.clone(),
            pattern_type: self.pattern_type,
            operations: self.operations.clone(),
            permission: self.permission,
        };
        assert(copy.operations.deep_view() =~= self.operations.deep_view());
        copy
    }
}

/// Resource type for ACL
#[derive(Clone, Copy, Debug, PartialEq, Eq, Structural)]
pub enum ResourceType {
    /// Topic resource
    Topic,
    /// Consumer group resource
    Group,
    /// Cluster resource
    Cluster,
    /// Transactional ID resource
    TransactionalId,
}

impl DeepView for ResourceType {
    type V = Self;

    open spec fn deep_view(&self) -> Self {
        *self
    }
}

/// Pattern type for resource matching
#[derive(Clone, Copy, Debug, PartialEq, Eq, Structural)]
pub enum PatternType {
    /// Exact match
    Literal,
    /// Prefix match
    Prefixed,
}

impl DeepView for PatternType {
    type V = Self;

    open spec fn deep_view(&self) -> Self {
        *self
    }
}

/// Permission/operation type
#[derive(Clone, Copy, Debug, PartialEq, Eq, Structural)]
pub enum UserPermission {
    /// Read from topic or describe
    Read,
    /// Write to topic
    Write,
    /// Create topics or groups
    Create,
    /// Delete topics or groups
    Delete,
    /// Alter topic configuration
    Alter,
    /// Describe topic/group/cluster
    Describe,
    /// Describe configuration
    DescribeConfigs,
    /// Alter configuration
    AlterConfigs,
    /// Idempotent write
    IdempotentWrite,
    /// All operations
    All,
}

impl DeepView for UserPermission {
    type V = Self;

    open spec fn deep_view(&self) -> Self {
        *self
    }
}

/// Permission type (allow or deny)
#[derive(Clone, Copy, Debug, PartialEq, Eq, Structural)]
pub enum PermissionType {
    /// Allow the operation
    Allow,
    /// Deny the operation
    Deny,
}

impl DeepView for PermissionType {
    type V = Self;

    open spec fn deep_view(&self) -> Self {
        *self
    }
}

/// User quotas
#[derive(Debug, PartialEq, Eq)]
pub struct UserQuotas {
    /// Producer byte rate limit (bytes/sec)
    pub producer_byte_rate: Option<i64>,
    /// Consumer byte rate limit (bytes/sec)
    pub consumer_byte_rate: Option<i64>,
    /// Request rate limit (requests/sec)
    pub request_rate: Option<i32>,
    /// Connection rate limit (connections/sec)
    pub connection_rate: Option<i32>,
}

/// What a [`UserQuotas`] holds, over characters and sequences.
#[verifier::ext_equal]
pub struct UserQuotasView {
    pub producer_byte_rate: Option<i64>,
    pub consumer_byte_rate: Option<i64>,
    pub request_rate: Option<i32>,
    pub connection_rate: Option<i32>,
}

impl DeepView for UserQuotas {
    type V = UserQuotasView;

    open spec fn deep_view(&self) -> UserQuotasView {
        UserQuotasView {
            producer_byte_rate: self.producer_byte_rate,
            consumer_byte_rate: self.consumer_byte_rate,
            request_rate: self.request_rate,
            connection_rate: self.connection_rate,
        }
    }
}

impl Clone for UserQuotas {
    fn clone(&self) -> (copy: Self)
        ensures
            copy.deep_view() == self.deep_view(),
    {
        UserQuotas {
            producer_byte_rate: self.producer_byte_rate,
            consumer_byte_rate: self.consumer_byte_rate,
            request_rate: self.request_rate,
            connection_rate: self.connection_rate,
        }
    }
}

/// Status of the StreamlineUser
#[derive(Debug, PartialEq, Eq)]
pub struct UserStatus {
    /// Whether the user is ready
    pub ready: bool,
    /// Current phase of the user
    pub phase: UserPhase,
    /// Username in the cluster
    pub username: Option<String>,
    /// Secret containing generated credentials
    pub credentials_secret: Option<String>,
    /// Conditions representing user state
    pub conditions: Vec<UserCondition>,
    /// Last observed generation
    pub observed_generation: Option<i64>,
    /// Last update timestamp
    pub last_updated: Option<String>,
    /// Error message if creation failed
    pub error_message: Option<String>,
}

/// What a [`UserStatus`] holds, over characters and sequences.
#[verifier::ext_equal]
pub struct UserStatusView {
    pub ready: bool,
    pub phase: UserPhase,
    pub username: Option<Seq<char>>,
    pub credentials_secret: Option<Seq<char>>,
    pub conditions: Seq<ConditionView>,
    pub observed_generation: Option<i64>,
    pub last_updated: Option<Seq<char>>,
    pub error_message: Option<Seq<char>>,
}

impl DeepView for UserStatus {
    type V = UserStatusView;

    open spec fn deep_view(&self) -> UserStatusView {
        UserStatusView {
            ready: self.ready,
            phase: self.phase,
            username: self.username.deep_view(),
            credentials_secret: self.credentials_secret.deep_view(),
            conditions: self.conditions.deep_view(),
            observed_generation: self.observed_generation,
            last_updated: self.last_updated.deep_view(),
            error_message: self.error_message.deep_view(),
        }
    }
}

impl Clone for UserStatus {
    fn clone(&self) -> (copy: Self)
        ensures
            copy.deep_view() == self.deep_view(),
    {
        let copy = UserStatus {
            ready: self.ready,
            phase: self.phase,
            username: self.username.clone(),
            credentials_secret: self.credentials_secret.clone(),
            conditions: self.conditions.clone(),
            observed_generation: self.observed_generation,
            last_updated: self.last_updated.clone(),
            error_message: self.error_message.clone(),
        };
        assert(copy.conditions.deep_view() =~= self.conditions.deep_view());
        copy
    }
}

/// Phase of the user lifecycle
#[derive(Clone, Copy, Debug, PartialEq, Eq, Structural)]
pub enum UserPhase {
    /// User is being created
    Pending,
    /// User is ready
    Ready,
    /// User is being updated
    Updating,
    /// User creation/update failed
    Failed,
    /// User is being deleted
    Terminating,
    /// User management is not supported by the server
    Unsupported,
}

impl DeepView for UserPhase {
    type V = Self;

    open spec fn deep_view(&self) -> Self {
        *self
    }
}

/// Condition of the user
#[derive(Debug, PartialEq, Eq)]
pub struct UserCondition {
    /// Type of condition
    pub type_: String,
    /// Status of the condition (True, False, Unknown)
    pub status: String,
    /// Last time the condition transitioned
    pub last_transition_time: Option<String>,
    /// Reason for the condition
    pub reason: Option<String>,
    /// Human-readable message
    pub message: Option<String>,
}

impl DeepView for UserCondition {
    type V = ConditionView;

    open spec fn deep_view(&self) -> ConditionView {
        ConditionView {
            condition_type: self.type_@,
            status: self.status@,
            last_transition_time: self.last_transition_time.deep_view(),
            reason: self.reason.deep_view(),
            message: self.message.deep_view(),
        }
    }
}

impl Clone for UserCondition {
    fn clone(&self) -> (copy: Self)
        ensures
            copy.deep_view() == self.deep_view(),
    {
        UserCondition {
            type_: self.type_.clone(),
            status: self.status.clone(),
            last_transition_time: self.last_transition_time.clone(),
            reason: self.reason.clone(),
            message: self.message.clone(),
        }
    }
}

impl StreamlineUser {
    /// A user resource with a name, a specification and no status yet.
    pub fn new(name: &str, spec: UserSpec) -> (user: Self)
        ensures
            user.deep_view() == (StreamlineUserView {
                metadata: crate::objects::named_meta(name@),
                spec: spec.deep_view(),
                status: None,
            }),
    {
        StreamlineUser { metadata: ResourceMeta::named(name), spec, status: None }
    }
}

impl UserSpec {
    /// The specification of a manifest that names its cluster and an authentication type.
    pub fn new(cluster_ref: &str, authentication: AuthenticationType) -> (spec: Self)
        ensures
            spec.deep_view() == (UserSpecView {
                cluster_ref: cluster_ref@,
                authentication: UserAuthenticationView { type_: authentication, credentials: None },
                authorization: UserAuthorizationView {
                    type_: AuthorizationType::Simple,
                    acls: Seq::empty(),
                    roles: Seq::empty(),
                },
                quotas: None,
            }),
    {
        UserSpec {
            cluster_ref: cluster_ref.to_owned(),
            authentication: UserAuthentication { type_: authentication, credentials: None },
            authorization: UserAuthorization::default(),
            quotas: None,
        }
    }
}

impl Default for UserAuthorization {
    fn default() -> (authorization: Self)
        ensures
            authorization.deep_view() == (UserAuthorizationView {
                type_: AuthorizationType::Simple,
                acls: Seq::empty(),
                roles: Seq::empty(),
            }),
    {
        let authorization = UserAuthorization {
            type_: AuthorizationType::default(),
            acls: Vec::new(),
            roles: Vec::new(),
        };
        assert(authorization.acls.deep_view() =~= Seq::empty());
        assert(authorization.roles.deep_view() =~= Seq::empty());
        authorization
    }
}

impl Default for AuthorizationType {
    fn default() -> (authorization: Self)
        ensures
            authorization == AuthorizationType::Simple,
    {
        AuthorizationType::Simple
    }
}

impl Default for PatternType {
    fn default() -> (pattern: Self)
        ensures
            pattern == PatternType::Literal,
    {
        PatternType::Literal
    }
}

impl Default for PermissionType {
    fn default() -> (permission: Self)
        ensures
            permission == PermissionType::Allow,
    {
        PermissionType::Allow
    }
}

impl Default for UserPhase {
    fn default() -> (phase: Self)
        ensures
            phase == UserPhase::Pending,
    {
        UserPhase::Pending
    }
}

impl Default for UserStatus {
    fn default() -> (status: Self)
        ensures
            status.deep_view() == (UserStatusView {
                ready: false,
                phase: UserPhase::Pending,
                username: None,
                credentials_secret: None,
                conditions: Seq::empty(),
                observed_generation: None,
                last_updated: None,
                error_message: None,
            }),
    {
        let status = UserStatus {
            ready: false,
            phase: UserPhase::default(),
            username: None,
            credentials_secret: None,
            conditions: Vec::new(),
            observed_generation: None,
            last_updated: None,
            error_message: None,
        };
        assert(status.conditions.deep_view() =~= Seq::empty());
        status
    }
}

/// Key that holds the password when a secret reference does not name one.
pub fn default_password_key() -> (key: String)
    ensures
        key@ == "password"@,
{
    "password".to_owned()
}

} // verus!
