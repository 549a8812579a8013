//! What the backends of the info fetcher sidecars need in a Pod.
use crate::kubernetes::builder::{
    add_volume, add_volume_mount, add_volume_mounts, add_volumes, begins_with, mount_added,
    mounts_added, volume_added, volumes_added, CollisionError, CollisionErrorView,
};
use crate::kubernetes::parts::{mount, mount_view, secret_volume, secret_volume_view};
use crate::kubernetes::pod::{
    SecretClassVolume, SecretClassVolumeScope, SecretClassVolumeScopeView, SecretClassVolumeView,
    Volume, VolumeMount, VolumeMountView, VolumeSource, VolumeSourceView, VolumeView,
};
use crate::value::{no_items, one_item, Value};
use vstd::prelude::*;

verus! {

/// The directory that backend credentials are mounted at.
///
/// Each fetcher runs in a container of its own, so they can share the path.
pub const CREDENTIALS_DIR: &'static str = "/stackable/credentials";

/// The name of the volume with the Kerberos configuration and keytab.
pub const KERBEROS_VOLUME_NAME: &'static str = "kerberos";

/// The directory that the Kerberos configuration and keytab are mounted at.
pub const KERBEROS_DIR: &'static str = "/stackable/kerberos";

/// Volumes, and their mounts in one container, that something needs in order to be reachable.
#[derive(Clone, Debug, PartialEq, Eq)]
pub struct AddedVolumes {
    pub volumes: Vec<Volume>,
    pub mounts: Vec<VolumeMount>,
}

/// The contents of an [`AddedVolumes`].
#[verifier::ext_equal]
pub struct AddedVolumesView {
    pub volumes: Seq<VolumeView>,
    pub mounts: Seq<VolumeMountView>,
}

impl DeepView for AddedVolumes {
    type V = AddedVolumesView;

    open spec fn deep_view(&self) -> AddedVolumesView {
        AddedVolumesView {
            volumes: self.volumes.deep_view(),
            mounts: self.mounts.deep_view(),
        }
    }
}

impl Value for AddedVolumes {
    fn duplicate(&self) -> (copy: Self) {
        AddedVolumes {
            volumes: self.volumes.duplicate(),
            mounts: self.mounts.duplicate(),
        }
    }

    fn same_as(&self, other: &Self) -> (same: bool) {
        self.volumes.same_as(&other.volumes) && self.mounts.same_as(&other.mounts)
    }
}

/// What a backend needs in the Pod.
#[derive(Clone, Debug, PartialEq, Eq)]
pub enum BackendNeeds {
    /// Nothing at all.
    Nothing,
    /// A keytab from the SecretClass of that name, and what its TLS settings ask for.
    Kerberos(String),
    /// The Secret of that name, and what its TLS settings ask for.
    Credentials(String),
    /// What an LDAP connection asks for: bind credentials and TLS.
    Ldap,
}

/// The contents of a [`BackendNeeds`].
#[verifier::ext_equal]
pub enum BackendNeedsView {
    Nothing,
    Kerberos(Seq<char>),
    Credentials(Seq<char>),
    Ldap,
}

impl DeepView for BackendNeeds {
    type V = BackendNeedsView;

    open spec fn deep_view(&self) -> BackendNeedsView {
        match self {
            BackendNeeds::Nothing => BackendNeedsView::Nothing,
            BackendNeeds::Kerberos(inner) => BackendNeedsView::Kerberos(inner.deep_view()),
            BackendNeeds::Credentials(inner) => BackendNeedsView::Credentials(inner.deep_view()),
            BackendNeeds::Ldap => BackendNeedsView::Ldap,
        }
    }
}

impl Value for BackendNeeds {
    fn duplicate(&self) -> (copy: Self) {
        match self {
            BackendNeeds::Nothing => BackendNeeds::Nothing,
            BackendNeeds::Kerberos(inner) => BackendNeeds::Kerberos(inner.duplicate()),
            BackendNeeds::Credentials(inner) => BackendNeeds::Credentials(inner.duplicate()),
            BackendNeeds::Ldap => BackendNeeds::Ldap,
        }
    }

    fn same_as(&self, other: &Self) -> (same: bool) {
        match (self, other) {
            (BackendNeeds::Nothing, BackendNeeds::Nothing) => true,
            (BackendNeeds::Kerberos(left), BackendNeeds::Kerberos(right)) => left.same_as(right),
            (BackendNeeds::Credentials(left), BackendNeeds::Credentials(right)) => {
                left.same_as(right)
            },
            (BackendNeeds::Ldap, BackendNeeds::Ldap) => true,
            _ => false,
        }
    }
}

/// Why a sidecar could not be added to a Pod.
#[derive(Clone, Debug, PartialEq, Eq)]
pub enum Error {
    /// The Kerberos volume collides with another volume.
    KerberosVolume(CollisionError),
    /// The mount of the Kerberos volume collides with another mount.
    KerberosVolumeMount(CollisionError),
    /// What the TLS settings ask for cannot be provided.
    TlsVolumeAndMounts(String),
    /// What the LDAP connection asks for cannot be provided.
    LdapVolumeAndMounts(String),
    /// What the TLS settings ask for collides with what is there.
    TlsCollision(CollisionError),
    /// What the LDAP connection asks for collides with what is there.
    LdapCollision(CollisionError),
    /// A volume collides with another volume.
    AddVolume(CollisionError),
    /// A mount collides with another mount.
    AddVolumeMount(CollisionError),
}

/// The contents of an [`Error`].
#[verifier::ext_equal]
pub enum ErrorView {
    KerberosVolume(CollisionErrorView),
    KerberosVolumeMount(CollisionErrorView),
    TlsVolumeAndMounts(Seq<char>),
    LdapVolumeAndMounts(Seq<char>),
    TlsCollision(CollisionErrorView),
    LdapCollision(CollisionErrorView),
    AddVolume(CollisionErrorView),
    AddVolumeMount(CollisionErrorView),
}

impl DeepView for Error {
    type V = ErrorView;

    open spec fn deep_view(&self) -> ErrorView {
        match self {
            Error::KerberosVolume(inner) => ErrorView::KerberosVolume(inner.deep_view()),
            Error::KerberosVolumeMount(inner) => ErrorView::KerberosVolumeMount(inner.deep_view()),
            Error::TlsVolumeAndMounts(inner) => ErrorView::TlsVolumeAndMounts(inner.deep_view()),
            Error::LdapVolumeAndMounts(inner) => ErrorView::LdapVolumeAndMounts(inner.deep_view()),
            Error::TlsCollision(inner) => ErrorView::TlsCollision(inner.deep_view()),
            Error::LdapCollision(inner) => ErrorView::LdapCollision(inner.deep_view()),
            Error::AddVolume(inner) => ErrorView::AddVolume(inner.deep_view()),
            Error::AddVolumeMount(inner) => ErrorView::AddVolumeMount(inner.deep_view()),
        }
    }
}

impl Value for Error {
    fn duplicate(&self) -> (copy: Self) {
        match self {
            Error::KerberosVolume(inner) => Error::KerberosVolume(inner.duplicate()),
            Error::KerberosVolumeMount(inner) => Error::KerberosVolumeMount(inner.duplicate()),
            Error::TlsVolumeAndMounts(inner) => Error::TlsVolumeAndMounts(inner.duplicate()),
            Error::LdapVolumeAndMounts(inner) => Error::LdapVolumeAndMounts(inner.duplicate()),
            Error::TlsCollision(inner) => Error::TlsCollision(inner.duplicate()),
            Error::LdapCollision(inner) => Error::LdapCollision(inner.duplicate()),
            Error::AddVolume(inner) => Error::AddVolume(inner.duplicate()),
            Error::AddVolumeMount(inner) => Error::AddVolumeMount(inner.duplicate()),
        }
    }

    fn same_as(&self, other: &Self) -> (same: bool) {
        match (self, other) {
            (Error::KerberosVolume(left), Error::KerberosVolume(right)) => left.same_as(right),
            (Error::KerberosVolumeMount(left), Error::KerberosVolumeMount(right)) => {
                left.same_as(right)
            },
            (Error::TlsVolumeAndMounts(left), Error::TlsVolumeAndMounts(right)) => {
                left.same_as(right)
            },
            (Error::LdapVolumeAndMounts(left), Error::LdapVolumeAndMounts(right)) => {
                left.same_as(right)
            },
            (Error::TlsCollision(left), Error::TlsCollision(right)) => left.same_as(right),
            (Error::LdapCollision(left), Error::LdapCollision(right)) => left.same_as(right),
            (Error::AddVolume(left), Error::AddVolume(right)) => left.same_as(right),
            (Error::AddVolumeMount(left), Error::AddVolumeMount(right)) => left.same_as(right),
            _ => false,
        }
    }
}

/// The volume from which a Kerberos client takes its configuration and keytab.
pub open spec fn kerberos_volume_view(secret_class: Seq<char>, service: Seq<char>) -> VolumeView {
    VolumeView {
        name: KERBEROS_VOLUME_NAME@,
        source: VolumeSourceView::SecretClass(
            SecretClassVolumeView {
                secret_class,
                scope: Some(
                    SecretClassVolumeScopeView {
                        pod: false,
                        node: false,
                        services: seq![service],
                        listener_volumes: Seq::empty(),
                    },
                ),
                provision_private_parts: true,
            },
        ),
    }
}

/// Builds the volume from which a Kerberos client takes its configuration and keytab.
pub fn kerberos_volume(secret_class: &str, service: &str) -> (volume: Volume)
    ensures
        volume.deep_view() == kerberos_volume_view(secret_class@, service@),
{
    Volume {
        name: KERBEROS_VOLUME_NAME.to_owned(),
        source: VolumeSource::SecretClass(
            SecretClassVolume {
                secret_class: secret_class.to_owned(),
                scope: Some(
                    SecretClassVolumeScope {
                        pod: false,
                        node: false,
                        services: one_item(service.to_owned()),
                        listener_volumes: no_items(),
                    },
                ),
                provision_private_parts: true,
            },
        ),
    }
}

/// The volumes of a Pod and the mounts of its sidecar.
pub struct SidecarVolumes {
    pub volumes: Seq<VolumeView>,
    pub mounts: Seq<VolumeMountView>,
}

/// The deep view of a borrowed result of providing volumes.
pub open spec fn provided_view(provided: Result<&AddedVolumes, &str>) -> Result<
    AddedVolumesView,
    Seq<char>,
> {
    match provided {
        Ok(added) => Ok(added.deep_view()),
        Err(error) => Err(error@),
    }
}

/// Adds what the TLS settings of a backend ask for.
pub open spec fn tls_added(
    provided: Result<AddedVolumesView, Seq<char>>,
    before: SidecarVolumes,
) -> Result<SidecarVolumes, ErrorView> {
    match provided {
        Err(error) => Err(ErrorView::TlsVolumeAndMounts(error)),
        Ok(added) => match volumes_added(before.volumes, added.volumes) {
            Err(error) => Err(ErrorView::TlsCollision(error)),
            Ok(volumes) => match mounts_added(before.mounts, added.mounts) {
                Err(error) => Err(ErrorView::TlsCollision(error)),
                Ok(mounts) => Ok(SidecarVolumes { volumes, mounts }),
            },
        },
    }
}

/// Adds what an LDAP connection asks for.
pub open spec fn ldap_added(
    provided: Result<AddedVolumesView, Seq<char>>,
    before: SidecarVolumes,
) -> Result<SidecarVolumes, ErrorView> {
    match provided {
        Err(error) => Err(ErrorView::LdapVolumeAndMounts(error)),
        Ok(added) => match volumes_added(before.volumes, added.volumes) {
            Err(error) => Err(ErrorView::LdapCollision(error)),
            Ok(volumes) => match mounts_added(before.mounts, added.mounts) {
                Err(error) => Err(ErrorView::LdapCollision(error)),
                Ok(mounts) => Ok(SidecarVolumes { volumes, mounts }),
            },
        },
    }
}

/// Adds the Kerberos volume and mounts it.
pub open spec fn kerberos_added(
    secret_class: Seq<char>,
    service: Seq<char>,
    before: SidecarVolumes,
) -> Result<SidecarVolumes, ErrorView> {
    match volume_added(before.volumes, kerberos_volume_view(secret_class, service)) {
        Err(error) => Err(ErrorView::KerberosVolume(error)),
        Ok(volumes) => match mount_added(
            before.mounts,
            mount_view(KERBEROS_VOLUME_NAME@, KERBEROS_DIR@),
        ) {
            Err(error) => Err(ErrorView::KerberosVolumeMount(error)),
            Ok(mounts) => Ok(SidecarVolumes { volumes, mounts }),
        },
    }
}

/// Adds the volume with the backend's credentials and mounts it as `mount`.
pub open spec fn credentials_added(
    secret: Seq<char>,
    mount: VolumeMountView,
    before: SidecarVolumes,
) -> Result<SidecarVolumes, ErrorView> {
    match volume_added(before.volumes, secret_volume_view(mount.name, secret)) {
        Err(error) => Err(ErrorView::AddVolume(error)),
        Ok(volumes) => match mount_added(before.mounts, mount) {
            Err(error) => Err(ErrorView::AddVolumeMount(error)),
            Ok(mounts) => Ok(SidecarVolumes { volumes, mounts }),
        },
    }
}

/// The volumes and mounts after everything that a backend needs was added.
///
/// `provided` is what the platform provides for the TLS or LDAP settings of the backend,
/// `credentials_mount` is where credentials are mounted.
pub open spec fn needs_added(
    needs: BackendNeedsView,
    service: Seq<char>,
    credentials_mount: VolumeMountView,
    provided: Result<AddedVolumesView, Seq<char>>,
    before: SidecarVolumes,
) -> Result<SidecarVolumes, ErrorView> {
    match needs {
        BackendNeedsView::Nothing => Ok(before),
        BackendNeedsView::Kerberos(secret_class) => match kerberos_added(
            secret_class,
            service,
            before,
        ) {
            Ok(after) => tls_added(provided, after),
            Err(error) => Err(error),
        },
        BackendNeedsView::Credentials(secret) => match credentials_added(
            secret,
            credentials_mount,
            before,
        ) {
            Ok(after) => tls_added(provided, after),
            Err(error) => Err(error),
        },
        BackendNeedsView::Ldap => ldap_added(provided, before),
    }
}

/// Whether adding came out as expected.
pub open spec fn added_as(
    expected: Result<SidecarVolumes, ErrorView>,
    result: Result<(), Error>,
    volumes: Seq<VolumeView>,
    mounts: Seq<VolumeMountView>,
) -> bool {
    match expected {
        Ok(after) => result is Ok && after.volumes == volumes && after.mounts == mounts,
        Err(expected) => result matches Err(error) && error.deep_view() == expected,
    }
}

fn add_tls(
    provided: Result<&AddedVolumes, &str>,
    volumes: &mut Vec<Volume>,
    mounts: &mut Vec<VolumeMount>,
) -> (result: Result<(), Error>)
    ensures
        added_as(
            tls_added(
                provided_view(provided),
                SidecarVolumes {
                    volumes: old(volumes).deep_view(),
                    mounts: old(mounts).deep_view(),
                },
            ),
            result,
            final(volumes).deep_view(),
            final(mounts).deep_view(),
        ),
        begins_with(final(volumes).deep_view(), old(volumes).deep_view()),
        begins_with(final(mounts).deep_view(), old(mounts).deep_view()),
{
    match provided {
        Err(error) => Err(Error::TlsVolumeAndMounts(error.to_owned())),
        Ok(added) => {
            if let Err(error) = add_volumes(volumes, &added.volumes) {
                return Err(Error::TlsCollision(error));
            }
            if let Err(error) = add_volume_mounts(mounts, &added.mounts) {
                return Err(Error::TlsCollision(error));
            }
            Ok(())
        },
    }
}

fn add_ldap(
    provided: Result<&AddedVolumes, &str>,
    volumes: &mut Vec<Volume>,
    mounts: &mut Vec<VolumeMount>,
) -> (result: Result<(), Error>)
    ensures
        added_as(
            ldap_added(
                provided_view(provided),
                SidecarVolumes {
                    volumes: old(volumes).deep_view(),
                    mounts: old(mounts).deep_view(),
                },
            ),
            result,
            final(volumes).deep_view(),
            final(mounts).deep_view(),
        ),
        begins_with(final(volumes).deep_view(), old(volumes).deep_view()),
        begins_with(final(mounts).deep_view(), old(mounts).deep_view()),
{
    match provided {
        Err(error) => Err(Error::LdapVolumeAndMounts(error.to_owned())),
        Ok(added) => {
            if let Err(error) = add_volumes(volumes, &added.volumes) {
                return Err(Error::LdapCollision(error));
            }
            if let Err(error) = add_volume_mounts(mounts, &added.mounts) {
                return Err(Error::LdapCollision(error));
            }
            Ok(())
        },
    }
}

fn add_kerberos(
    secret_class: &str,
    service: &str,
    volumes: &mut Vec<Volume>,
    mounts: &mut Vec<VolumeMount>,
) -> (result: Result<(), Error>)
    ensures
        added_as(
            kerberos_added(
                secret_class@,
                service@,
                SidecarVolumes {
                    volumes: old(volumes).deep_view(),
                    mounts: old(mounts).deep_view(),
                },
            ),
            result,
            final(volumes).deep_view(),
            final(mounts).deep_view(),
        ),
        begins_with(final(volumes).deep_view(), old(volumes).deep_view()),
        begins_with(final(mounts).deep_view(), old(mounts).deep_view()),
{
    if let Err(error) = add_volume(volumes, kerberos_volume(secret_class, service)) {
        return Err(Error::KerberosVolume(error));
    }
    if let Err(error) = add_volume_mount(mounts, mount(KERBEROS_VOLUME_NAME, KERBEROS_DIR)) {
        return Err(Error::KerberosVolumeMount(error));
    }
    Ok(())
}

fn add_credentials(
    secret: &str,
    credentials_mount: VolumeMount,
    volumes: &mut Vec<Volume>,
    mounts: &mut Vec<VolumeMount>,
) -> (result: Result<(), Error>)
    ensures
        added_as(
            credentials_added(
                secret@,
                credentials_mount.deep_view(),
                SidecarVolumes {
                    volumes: old(volumes).deep_view(),
                    mounts: old(mounts).deep_view(),
                },
            ),
            result,
            final(volumes).deep_view(),
            final(mounts).deep_view(),
        ),
        begins_with(final(volumes).deep_view(), old(volumes).deep_view()),
        begins_with(final(mounts).deep_view(), old(mounts).deep_view()),
{
    if let Err(error) = add_volume(volumes, secret_volume(credentials_mount.name.as_str(), secret)) {
        return Err(Error::AddVolume(error));
    }
    if let Err(error) = add_volume_mount(mounts, credentials_mount) {
        return Err(Error::AddVolumeMount(error));
    }
    Ok(())
}

/// Adds everything that a backend needs. Where that fails, a part of it may have been added after
/// what was there before.
pub fn add_needs(
    needs: &BackendNeeds,
    service: &str,
    credentials_mount: VolumeMount,
    provided: Result<&AddedVolumes, &str>,
    volumes: &mut Vec<Volume>,
    mounts: &mut Vec<VolumeMount>,
) -> (result: Result<(), Error>)
    ensures
        added_as(
            needs_added(
                needs.deep_view(),
                service@,
                credentials_mount.deep_view(),
                provided_view(provided),
                SidecarVolumes {
                    volumes: old(volumes).deep_view(),
                    mounts: old(mounts).deep_view(),
                },
            ),
            result,
            final(volumes).deep_view(),
            final(mounts).deep_view(),
        ),
        begins_with(final(volumes).deep_view(), old(volumes).deep_view()),
        begins_with(final(mounts).deep_view(), old(mounts).deep_view()),
{
    match needs {
        BackendNeeds::Nothing => Ok(()),
        BackendNeeds::Kerberos(secret_class) => {
            if let Err(error) = add_kerberos(secret_class.as_str(), service, volumes, mounts) {
                return Err(error);
            }
            add_tls(provided, volumes, mounts)
        },
        BackendNeeds::Credentials(secret) => {
            if let Err(error) = add_credentials(secret.as_str(), credentials_mount, volumes, mounts) {
                return Err(error);
            }
            add_tls(provided, volumes, mounts)
        },
        BackendNeeds::Ldap => add_ldap(provided, volumes, mounts),
    }
}

} // verus!
