//! The events a webhook endpoint can subscribe to.

use vstd::prelude::*;

verus! {

/// An event a webhook endpoint can subscribe to; `All` stands for every
/// event.
#[derive(Debug, Clone, Copy, PartialEq, Eq, Structural)]
pub enum WebhookEvent {
    AccountBillingUpdated,
    AccountPlanUpdated,
    AccountSubscriptionCanceled,
    AccountSubscriptionPaused,
    AccountSubscriptionRenewed,
    AccountSubscriptionResumed,
    AccountUpdated,
    ArtifactCreated,
    ArtifactDeleted,
    ArtifactDownloaded,
    ArtifactUpdated,
    ArtifactUploadProcessing,
    ArtifactUploadSucceeded,
    ArtifactUploadFailed,
    ArtifactUploaded,
    ComponentCreated,
    ComponentDeleted,
    ComponentUpdated,
    EntitlementCreated,
    EntitlementDeleted,
    EntitlementUpdated,
    GroupCreated,
    GroupDeleted,
    GroupOwnersAttached,
    GroupOwnersDetached,
    GroupUpdated,
    LicenseCheckInOverdue,
    LicenseCheckInRequiredSoon,
    LicenseCheckedIn,
    LicenseCheckedOut,
    LicenseCreated,
    LicenseDeleted,
    LicenseEntitlementsAttached,
    LicenseEntitlementsDetached,
    LicenseExpired,
    LicenseExpiringSoon,
    LicenseGroupUpdated,
    LicensePolicyUpdated,
    LicenseReinstated,
    LicenseRenewed,
    LicenseRevoked,
    LicenseSuspended,
    LicenseUpdated,
    LicenseUsageDecremented,
    LicenseUsageIncremented,
    LicenseUsageReset,
    LicenseOwnerUpdated,
    LicenseUsersAttached,
    LicenseUsersDetached,
    LicenseValidationFailed,
    LicenseValidationSucceeded,
    MachineCheckedOut,
    MachineCreated,
    MachineDeleted,
    MachineGroupUpdated,
    MachineOwnerUpdated,
    MachineHeartbeatDead,
    MachineHeartbeatPing,
    MachineHeartbeatReset,
    MachineHeartbeatResurrected,
    MachineUpdated,
    PackageCreated,
    PackageDeleted,
    PackageUpdated,
    PolicyCreated,
    PolicyDeleted,
    PolicyEntitlementsAttached,
    PolicyEntitlementsDetached,
    PolicyPoolPopped,
    PolicyUpdated,
    ProductCreated,
    ProductDeleted,
    ProductUpdated,
    ReleaseConstraintsAttached,
    ReleaseConstraintsDetached,
    ReleaseCreated,
    ReleaseDeleted,
    ReleasePackageUpdated,
    ReleasePublished,
    ReleaseUpdated,
    ReleaseUpgraded,
    ReleaseYanked,
    SecondFactorCreated,
    SecondFactorDeleted,
    SecondFactorDisabled,
    SecondFactorEnabled,
    TokenGenerated,
    TokenRegenerated,
    TokenRevoked,
    UserBanned,
    UserCreated,
    UserDeleted,
    UserGroupUpdated,
    UserPasswordReset,
    UserUnbanned,
    UserUpdated,
    All,
}

impl WebhookEvent {
    /// The event's name, as the API spells it.
    pub open spec fn code(self) -> Seq<char> {
        match self {
            WebhookEvent::AccountBillingUpdated => "account.billing.updated"@,
            WebhookEvent::AccountPlanUpdated => "account.plan.updated"@,
            WebhookEvent::AccountSubscriptionCanceled => "account.subscription.canceled"@,
            WebhookEvent::AccountSubscriptionPaused => "account.subscription.paused"@,
            WebhookEvent::AccountSubscriptionRenewed => "account.subscription.renewed"@,
            WebhookEvent::AccountSubscriptionResumed => "account.subscription.resumed"@,
            WebhookEvent::AccountUpdated => "account.updated"@,
            WebhookEvent::ArtifactCreated => "artifact.created"@,
            WebhookEvent::ArtifactDeleted => "artifact.deleted"@,
            WebhookEvent::ArtifactDownloaded => "artifact.downloaded"@,
            WebhookEvent::ArtifactUpdated => "artifact.updated"@,
            WebhookEvent::ArtifactUploadProcessing => "artifact.upload.processing"@,
            WebhookEvent::ArtifactUploadSucceeded => "artifact.upload.succeeded"@,
            WebhookEvent::ArtifactUploadFailed => "artifact.upload.failed"@,
            WebhookEvent::ArtifactUploaded => "artifact.uploaded"@,
            WebhookEvent::ComponentCreated => "component.created"@,
            WebhookEvent::ComponentDeleted => "component.deleted"@,
            WebhookEvent::ComponentUpdated => "component.updated"@,
            WebhookEvent::EntitlementCreated => "entitlement.created"@,
            WebhookEvent::EntitlementDeleted => "entitlement.deleted"@,
            WebhookEvent::EntitlementUpdated => "entitlement.updated"@,
            WebhookEvent::GroupCreated => "group.created"@,
            WebhookEvent::GroupDeleted => "group.deleted"@,
            WebhookEvent::GroupOwnersAttached => "group.owners.attached"@,
            WebhookEvent::GroupOwnersDetached => "group.owners.detached"@,
            WebhookEvent::GroupUpdated => "group.updated"@,
            WebhookEvent::LicenseCheckInOverdue => "license.check-in-overdue"@,
            WebhookEvent::LicenseCheckInRequiredSoon => "license.check-in-required-soon"@,
            WebhookEvent::LicenseCheckedIn => "license.checked-in"@,
            WebhookEvent::LicenseCheckedOut => "license.checked-out"@,
            WebhookEvent::LicenseCreated => "license.created"@,
            WebhookEvent::LicenseDeleted => "license.deleted"@,
            WebhookEvent::LicenseEntitlementsAttached => "license.entitlements.attached"@,
            WebhookEvent::LicenseEntitlementsDetached => "license.entitlements.detached"@,
            WebhookEvent::LicenseExpired => "license.expired"@,
            WebhookEvent::LicenseExpiringSoon => "license.expiring-soon"@,
            WebhookEvent::LicenseGroupUpdated => "license.group.updated"@,
            WebhookEvent::LicensePolicyUpdated => "license.policy.updated"@,
            WebhookEvent::LicenseReinstated => "license.reinstated"@,
            WebhookEvent::LicenseRenewed => "license.renewed"@,
            WebhookEvent::LicenseRevoked => "license.revoked"@,
            WebhookEvent::LicenseSuspended => "license.suspended"@,
            WebhookEvent::LicenseUpdated => "license.updated"@,
            WebhookEvent::LicenseUsageDecremented => "license.usage.decremented"@,
            WebhookEvent::LicenseUsageIncremented => "license.usage.incremented"@,
            WebhookEvent::LicenseUsageReset => "license.usage.reset"@,
            WebhookEvent::LicenseOwnerUpdated => "license.owner.updated"@,
            WebhookEvent::LicenseUsersAttached => "license.users.attached"@,
            WebhookEvent::LicenseUsersDetached => "license.users.detached"@,
            WebhookEvent::LicenseValidationFailed => "license.validation.failed"@,
            WebhookEvent::LicenseValidationSucceeded => "license.validation.succeeded"@,
            WebhookEvent::MachineCheckedOut => "machine.checked-out"@,
            WebhookEvent::MachineCreated => "machine.created"@,
            WebhookEvent::MachineDeleted => "machine.deleted"@,
            WebhookEvent::MachineGroupUpdated => "machine.group.updated"@,
            WebhookEvent::MachineOwnerUpdated => "machine.owner.updated"@,
            WebhookEvent::MachineHeartbeatDead => "machine.heartbeat.dead"@,
            WebhookEvent::MachineHeartbeatPing => "machine.heartbeat.ping"@,
            WebhookEvent::MachineHeartbeatReset => "machine.heartbeat.reset"@,
            WebhookEvent::MachineHeartbeatResurrected => "machine.heartbeat.resurrected"@,
            WebhookEvent::MachineUpdated => "machine.updated"@,
            WebhookEvent::PackageCreated => "package.created"@,
            WebhookEvent::PackageDeleted => "package.deleted"@,
            WebhookEvent::PackageUpdated => "package.updated"@,
            WebhookEvent::PolicyCreated => "policy.created"@,
            WebhookEvent::PolicyDeleted => "policy.deleted"@,
            WebhookEvent::PolicyEntitlementsAttached => "policy.entitlements.attached"@,
            WebhookEvent::PolicyEntitlementsDetached => "policy.entitlements.detached"@,
            WebhookEvent::PolicyPoolPopped => "policy.pool.popped"@,
            WebhookEvent::PolicyUpdated => "policy.updated"@,
            WebhookEvent::ProductCreated => "product.created"@,
            WebhookEvent::ProductDeleted => "product.deleted"@,
            WebhookEvent::ProductUpdated => "product.updated"@,
            WebhookEvent::ReleaseConstraintsAttached => "release.constraints.attached"@,
            WebhookEvent::ReleaseConstraintsDetached => "release.constraints.detached"@,
            WebhookEvent::ReleaseCreated => "release.created"@,
            WebhookEvent::ReleaseDeleted => "release.deleted"@,
            WebhookEvent::ReleasePackageUpdated => "release.package.updated"@,
            WebhookEvent::ReleasePublished => "release.published"@,
            WebhookEvent::ReleaseUpdated => "release.updated"@,
            WebhookEvent::ReleaseUpgraded => "release.upgraded"@,
            WebhookEvent::ReleaseYanked => "release.yanked"@,
            WebhookEvent::SecondFactorCreated => "second-factor.created"@,
            WebhookEvent::SecondFactorDeleted => "second-factor.deleted"@,
            WebhookEvent::SecondFactorDisabled => "second-factor.disabled"@,
            WebhookEvent::SecondFactorEnabled => "second-factor.enabled"@,
            WebhookEvent::TokenGenerated => "token.generated"@,
            WebhookEvent::TokenRegenerated => "token.regenerated"@,
            WebhookEvent::TokenRevoked => "token.revoked"@,
            WebhookEvent::UserBanned => "user.banned"@,
            WebhookEvent::UserCreated => "user.created"@,
            WebhookEvent::UserDeleted => "user.deleted"@,
            WebhookEvent::UserGroupUpdated => "user.group.updated"@,
            WebhookEvent::UserPasswordReset => "user.password-reset"@,
            WebhookEvent::UserUnbanned => "user.unbanned"@,
            WebhookEvent::UserUpdated => "user.updated"@,
            WebhookEvent::All => "*"@,
        }
    }

    /// The event's name, as the API spells it.
    pub fn as_str(self) -> (r: &'static str)
        ensures
            r@ == self.code(),
    {
        match self {
            WebhookEvent::AccountBillingUpdated => "account.billing.updated",
            WebhookEvent::AccountPlanUpdated => "account.plan.updated",
            WebhookEvent::AccountSubscriptionCanceled => "account.subscription.canceled",
            WebhookEvent::AccountSubscriptionPaused => "account.subscription.paused",
            WebhookEvent::AccountSubscriptionRenewed => "account.subscription.renewed",
            WebhookEvent::AccountSubscriptionResumed => "account.subscription.resumed",
            WebhookEvent::AccountUpdated => "account.updated",
            WebhookEvent::ArtifactCreated => "artifact.created",
            WebhookEvent::ArtifactDeleted => "artifact.deleted",
            WebhookEvent::ArtifactDownloaded => "artifact.downloaded",
            WebhookEvent::ArtifactUpdated => "artifact.updated",
            WebhookEvent::ArtifactUploadProcessing => "artifact.upload.processing",
            WebhookEvent::ArtifactUploadSucceeded => "artifact.upload.succeeded",
            WebhookEvent::ArtifactUploadFailed => "artifact.upload.failed",
            WebhookEvent::ArtifactUploaded => "artifact.uploaded",
            WebhookEvent::ComponentCreated => "component.created",
            WebhookEvent::ComponentDeleted => "component.deleted",
            WebhookEvent::ComponentUpdated => "component.updated",
            WebhookEvent::EntitlementCreated => "entitlement.created",
            WebhookEvent::EntitlementDeleted => "entitlement.deleted",
            WebhookEvent::EntitlementUpdated => "entitlement.updated",
            WebhookEvent::GroupCreated => "group.created",
            WebhookEvent::GroupDeleted => "group.deleted",
            WebhookEvent::GroupOwnersAttached => "group.owners.attached",
            WebhookEvent::GroupOwnersDetached => "group.owners.detached",
            WebhookEvent::GroupUpdated => "group.updated",
            WebhookEvent::LicenseCheckInOverdue => "license.check-in-overdue",
            WebhookEvent::LicenseCheckInRequiredSoon => "license.check-in-required-soon",
            WebhookEvent::LicenseCheckedIn => "license.checked-in",
            WebhookEvent::LicenseCheckedOut => "license.checked-out",
            WebhookEvent::LicenseCreated => "license.created",
            WebhookEvent::LicenseDeleted => "license.deleted",
            WebhookEvent::LicenseEntitlementsAttached => "license.entitlements.attached",
            WebhookEvent::LicenseEntitlementsDetached => "license.entitlements.detached",
            WebhookEvent::LicenseExpired => "license.expired",
            WebhookEvent::LicenseExpiringSoon => "license.expiring-soon",
            WebhookEvent::LicenseGroupUpdated => "license.group.updated",
            WebhookEvent::LicensePolicyUpdated => "license.policy.updated",
            WebhookEvent::LicenseReinstated => "license.reinstated",
            WebhookEvent::LicenseRenewed => "license.renewed",
            WebhookEvent::LicenseRevoked => "license.revoked",
            WebhookEvent::LicenseSuspended => "license.suspended",
            WebhookEvent::LicenseUpdated => "license.updated",
            WebhookEvent::LicenseUsageDecremented => "license.usage.decremented",
            WebhookEvent::LicenseUsageIncremented => "license.usage.incremented",
            WebhookEvent::LicenseUsageReset => "license.usage.reset",
            WebhookEvent::LicenseOwnerUpdated => "license.owner.updated",
            WebhookEvent::LicenseUsersAttached => "license.users.attached",
            WebhookEvent::LicenseUsersDetached => "license.users.detached",
            WebhookEvent::LicenseValidationFailed => "license.validation.failed",
            WebhookEvent::LicenseValidationSucceeded => "license.validation.succeeded",
            WebhookEvent::MachineCheckedOut => "machine.checked-out",
            WebhookEvent::MachineCreated => "machine.created",
            WebhookEvent::MachineDeleted => "machine.deleted",
            WebhookEvent::MachineGroupUpdated => "machine.group.updated",
            WebhookEvent::MachineOwnerUpdated => "machine.owner.updated",
            WebhookEvent::MachineHeartbeatDead => "machine.heartbeat.dead",
            WebhookEvent::MachineHeartbeatPing => "machine.heartbeat.ping",
            WebhookEvent::MachineHeartbeatReset => "machine.heartbeat.reset",
            WebhookEvent::MachineHeartbeatResurrected => "machine.heartbeat.resurrected",
            WebhookEvent::MachineUpdated => "machine.updated",
            WebhookEvent::PackageCreated => "package.created",
            WebhookEvent::PackageDeleted => "package.deleted",
            WebhookEvent::PackageUpdated => "package.updated",
            WebhookEvent::PolicyCreated => "policy.created",
            WebhookEvent::PolicyDeleted => "policy.deleted",
            WebhookEvent::PolicyEntitlementsAttached => "policy.entitlements.attached",
            WebhookEvent::PolicyEntitlementsDetached => "policy.entitlements.detached",
            WebhookEvent::PolicyPoolPopped => "policy.pool.popped",
            WebhookEvent::PolicyUpdated => "policy.updated",
            WebhookEvent::ProductCreated => "product.created",
            WebhookEvent::ProductDeleted => "product.deleted",
            WebhookEvent::ProductUpdated => "product.updated",
            WebhookEvent::ReleaseConstraintsAttached => "release.constraints.attached",
            WebhookEvent::ReleaseConstraintsDetached => "release.constraints.detached",
            WebhookEvent::ReleaseCreated => "release.created",
            WebhookEvent::ReleaseDeleted => "release.deleted",
            WebhookEvent::ReleasePackageUpdated => "release.package.updated",
            WebhookEvent::ReleasePublished => "release.published",
            WebhookEvent::ReleaseUpdated => "release.updated",
            WebhookEvent::ReleaseUpgraded => "release.upgraded",
            WebhookEvent::ReleaseYanked => "release.yanked",
            WebhookEvent::SecondFactorCreated => "second-factor.created",
            WebhookEvent::SecondFactorDeleted => "second-factor.deleted",
            WebhookEvent::SecondFactorDisabled => "second-factor.disabled",
            WebhookEvent::SecondFactorEnabled => "second-factor.enabled",
            WebhookEvent::TokenGenerated => "token.generated",
            WebhookEvent::TokenRegenerated => "token.regenerated",
            WebhookEvent::TokenRevoked => "token.revoked",
            WebhookEvent::UserBanned => "user.banned",
            WebhookEvent::UserCreated => "user.created",
            WebhookEvent::UserDeleted => "user.deleted",
            WebhookEvent::UserGroupUpdated => "user.group.updated",
            WebhookEvent::UserPasswordReset => "user.password-reset",
            WebhookEvent::UserUnbanned => "user.unbanned",
            WebhookEvent::UserUpdated => "user.updated",
            WebhookEvent::All => "*",
        }
    }
}

} // verus!
