//! Volumes and mounts that fit together.
use crate::info_fetcher_sidecar::{
    credentials_added, kerberos_added, kerberos_volume_view, ldap_added, needs_added, tls_added,
    AddedVolumesView, BackendNeedsView, ErrorView, SidecarVolumes, KERBEROS_DIR,
    KERBEROS_VOLUME_NAME,
};
use crate::kubernetes::builder::{
    lemma_mount_added, lemma_mounts_added, lemma_volume_added, lemma_volumes_added, mount_added,
    mount_paths_unique, mounts_added, volume_added, volume_names_unique, volumes_added,
    CollisionErrorView,
};
use crate::kubernetes::parts::{mount_view, secret_volume_view};
use crate::kubernetes::pod::{ContainerView, VolumeMountView, VolumeSourceView, VolumeView};
use vstd::prelude::*;

verus! {

/// Whether one of the volumes has this name.
pub open spec fn has_volume(volumes: Seq<VolumeView>, name: Seq<char>) -> bool {
    exists|i: int| 0 <= i < volumes.len() && (#[trigger] volumes[i]).name == name
}

/// Whether every mount is of one of the volumes.
pub open spec fn mounts_covered(mounts: Seq<VolumeMountView>, volumes: Seq<VolumeView>) -> bool {
    forall|i: int| 0 <= i < mounts.len() ==> has_volume(volumes, (#[trigger] mounts[i]).name)
}

/// Whether every container mounts volumes of the Pod only.
pub open spec fn containers_covered(
    containers: Seq<ContainerView>,
    volumes: Seq<VolumeView>,
) -> bool {
    forall|i: int|
        0 <= i < containers.len() ==> mounts_covered((#[trigger] containers[i]).volume_mounts, volumes)
}

/// A volume is still there when others are added.
pub proof fn lemma_has_volume_kept(before: Seq<VolumeView>, after: Seq<VolumeView>, name: Seq<char>)
    requires
        before.is_prefix_of(after),
        has_volume(before, name),
    ensures
        has_volume(after, name),
{
    let i = choose|i: int| 0 <= i < before.len() && (#[trigger] before[i]).name == name;
    assert(after[i] == before[i]);
}

/// What covers mounts still covers them when volumes are added.
pub proof fn lemma_covered_kept(
    mounts: Seq<VolumeMountView>,
    before: Seq<VolumeView>,
    after: Seq<VolumeView>,
)
    requires
        before.is_prefix_of(after),
        mounts_covered(mounts, before),
    ensures
        mounts_covered(mounts, after),
{
    assert forall|i: int| 0 <= i < mounts.len() implies has_volume(
        after,
        (#[trigger] mounts[i]).name,
    ) by {
        lemma_has_volume_kept(before, after, mounts[i].name);
    }
}

/// Containers still mount volumes of the Pod only when volumes are added.
pub proof fn lemma_containers_kept(
    containers: Seq<ContainerView>,
    before: Seq<VolumeView>,
    after: Seq<VolumeView>,
)
    requires
        before.is_prefix_of(after),
        containers_covered(containers, before),
    ensures
        containers_covered(containers, after),
{
    assert forall|i: int| 0 <= i < containers.len() implies mounts_covered(
        (#[trigger] containers[i]).volume_mounts,
        after,
    ) by {
        lemma_covered_kept(containers[i].volume_mounts, before, after);
    }
}

/// What is provided for a connection covers its own mounts.
pub open spec fn provided_covers_itself(provided: Result<AddedVolumesView, Seq<char>>) -> bool {
    provided matches Ok(added) ==> mounts_covered(added.mounts, added.volumes)
}

/// Volumes with unique names, and mounts with unique paths that they cover.
pub open spec fn consistent(parts: SidecarVolumes) -> bool {
    &&& volume_names_unique(parts.volumes)
    &&& mount_paths_unique(parts.mounts)
    &&& mounts_covered(parts.mounts, parts.volumes)
}

proof fn lemma_one_added(
    before: SidecarVolumes,
    volume: VolumeView,
    mount: VolumeMountView,
    after: SidecarVolumes,
)
    requires
        consistent(before),
        mount.name == volume.name,
        volume_added(before.volumes, volume) == Ok::<_, CollisionErrorView>(after.volumes),
        mount_added(before.mounts, mount) == Ok::<_, CollisionErrorView>(after.mounts),
    ensures
        consistent(after),
        before.volumes.is_prefix_of(after.volumes),
{
    lemma_volume_added(before.volumes, volume);
    lemma_mount_added(before.mounts, mount);
    lemma_covered_kept(before.mounts, before.volumes, after.volumes);
    assert forall|i: int| 0 <= i < after.mounts.len() implies has_volume(
        after.volumes,
        (#[trigger] after.mounts[i]).name,
    ) by {
        if i < before.mounts.len() {
            assert(after.mounts[i] == before.mounts[i]);
        } else {
            let at = choose|k: int| 0 <= k < after.volumes.len() && after.volumes[k] == volume;
            assert(after.volumes[at].name == mount.name);
        }
    }
}

proof fn lemma_provided_added(
    before: SidecarVolumes,
    added: AddedVolumesView,
    after: SidecarVolumes,
)
    requires
        consistent(before),
        mounts_covered(added.mounts, added.volumes),
        volumes_added(before.volumes, added.volumes) == Ok::<_, CollisionErrorView>(after.volumes),
        mounts_added(before.mounts, added.mounts) == Ok::<_, CollisionErrorView>(after.mounts),
    ensures
        consistent(after),
        before.volumes.is_prefix_of(after.volumes),
{
    lemma_volumes_added(before.volumes, added.volumes);
    lemma_mounts_added(before.mounts, added.mounts);
    lemma_covered_kept(before.mounts, before.volumes, after.volumes);
    assert forall|i: int| 0 <= i < after.mounts.len() implies has_volume(
        after.volumes,
        (#[trigger] after.mounts[i]).name,
    ) by {
        let mount = after.mounts[i];
        if before.mounts.contains(mount) {
            let at = choose|k: int| 0 <= k < before.mounts.len() && before.mounts[k] == mount;
            assert(has_volume(after.volumes, before.mounts[at].name));
        } else {
            let at = choose|k: int| 0 <= k < added.mounts.len() && added.mounts[k] == mount;
            assert(has_volume(added.volumes, added.mounts[at].name));
            let v = choose|k: int|
                0 <= k < added.volumes.len() && (#[trigger] added.volumes[k]).name == mount.name;
            assert(after.volumes.contains(added.volumes[v]));
            let w = choose|k: int| 0 <= k < after.volumes.len() && after.volumes[k] == added.volumes[v];
            assert(after.volumes[w].name == mount.name);
        }
    }
}

/// Adding what a backend needs keeps the Pod consistent.
pub proof fn lemma_needs_keep_consistent(
    needs: BackendNeedsView,
    service: Seq<char>,
    credentials_mount: VolumeMountView,
    provided: Result<AddedVolumesView, Seq<char>>,
    before: SidecarVolumes,
)
    requires
        consistent(before),
        provided_covers_itself(provided),
    ensures
        needs_added(needs, service, credentials_mount, provided, before) matches Ok(after)
            ==> consistent(after) && before.volumes.is_prefix_of(after.volumes),
{
    match needs {
        BackendNeedsView::Nothing => {},
        BackendNeedsView::Kerberos(secret_class) => {
            if let Ok(middle) = kerberos_added(secret_class, service, before) {
                lemma_one_added(
                    before,
                    kerberos_volume_view(secret_class, service),
                    mount_view(
                        KERBEROS_VOLUME_NAME@,
                        KERBEROS_DIR@,
                    ),
                    middle,
                );
                if let Ok(after) = tls_added(provided, middle) {
                    lemma_provided_added(middle, provided->Ok_0, after);
                }
            }
        },
        BackendNeedsView::Credentials(secret) => {
            if let Ok(middle) = credentials_added(secret, credentials_mount, before) {
                lemma_one_added(
                    before,
                    secret_volume_view(credentials_mount.name, secret),
                    credentials_mount,
                    middle,
                );
                if let Ok(after) = tls_added(provided, middle) {
                    lemma_provided_added(middle, provided->Ok_0, after);
                }
            }
        },
        BackendNeedsView::Ldap => {
            if let Ok(after) = ldap_added(provided, before) {
                lemma_provided_added(before, provided->Ok_0, after);
            }
        },
    }
}

proof fn lemma_volumes_only_added(volumes: Seq<VolumeView>, added: Seq<VolumeView>)
    ensures
        volumes_added(volumes, added) matches Ok(after) ==> volumes.is_prefix_of(after),
    decreases added.len(),
{
    if added.len() > 0 {
        lemma_volumes_only_added(volumes, added.drop_last());
    }
}

proof fn lemma_mounts_only_added(mounts: Seq<VolumeMountView>, added: Seq<VolumeMountView>)
    ensures
        mounts_added(mounts, added) matches Ok(after) ==> mounts.is_prefix_of(after),
    decreases added.len(),
{
    if added.len() > 0 {
        lemma_mounts_only_added(mounts, added.drop_last());
    }
}

/// What a backend needs is added behind the volumes and mounts that are there already.
pub proof fn lemma_needs_only_add(
    needs: BackendNeedsView,
    service: Seq<char>,
    credentials_mount: VolumeMountView,
    provided: Result<AddedVolumesView, Seq<char>>,
    before: SidecarVolumes,
)
    ensures
        needs_added(needs, service, credentials_mount, provided, before) matches Ok(after)
            ==> before.volumes.is_prefix_of(after.volumes) && before.mounts.is_prefix_of(
            after.mounts,
        ),
{
    if let Ok(added) = provided {
        let volumes = match needs {
            BackendNeedsView::Kerberos(secret_class) => kerberos_added(
                secret_class,
                service,
                before,
            ),
            BackendNeedsView::Credentials(secret) => credentials_added(
                secret,
                credentials_mount,
                before,
            ),
            _ => Ok(before),
        };
        if let Ok(start) = volumes {
            lemma_volumes_only_added(start.volumes, added.volumes);
            lemma_mounts_only_added(start.mounts, added.mounts);
        }
    }
}

/// Whether a volume of this name holds what a SecretClass provides for a service.
pub open spec fn has_secret_class_volume(
    volumes: Seq<VolumeView>,
    name: Seq<char>,
    secret_class: Seq<char>,
    service: Seq<char>,
) -> bool {
    exists|i: int|
        0 <= i < volumes.len() && (#[trigger] volumes[i]).name == name && volumes[i].source
            is SecretClass && volumes[i].source->SecretClass_0.secret_class == secret_class
            && volumes[i].source->SecretClass_0.provision_private_parts
            && volumes[i].source->SecretClass_0.scope is Some
            && volumes[i].source->SecretClass_0.scope->0.services == seq![service]
            && !volumes[i].source->SecretClass_0.scope->0.pod
            && !volumes[i].source->SecretClass_0.scope->0.node
}

/// A backend gets what it needs: the keytab of the service where it uses Kerberos, the Secret with its
/// credentials where it has one, and, but for a backend that needs nothing, all that is provided for
/// it.
pub proof fn lemma_needs_are_met(
    needs: BackendNeedsView,
    service: Seq<char>,
    credentials_mount: VolumeMountView,
    provided: Result<AddedVolumesView, Seq<char>>,
    before: SidecarVolumes,
)
    requires
        consistent(before),
    ensures
        needs_added(needs, service, credentials_mount, provided, before) matches Ok(after) ==> {
            &&& needs is Kerberos ==> has_secret_class_volume(
                after.volumes,
                "kerberos"@,
                needs->Kerberos_0,
                service,
            ) && after.mounts.contains(
                VolumeMountView {
                    name: "kerberos"@,
                    mount_path: "/stackable/kerberos"@,
                    read_only: None,
                },
            )
            &&& needs is Credentials ==> after.volumes.contains(
                VolumeView {
                    name: credentials_mount.name,
                    source: VolumeSourceView::Secret(needs->Credentials_0),
                },
            ) && after.mounts.contains(credentials_mount)
            &&& needs is Nothing ==> after == before
            &&& !(needs is Nothing) ==> provided is Ok && (forall|i: int|
                0 <= i < (provided->Ok_0).volumes.len() ==> after.volumes.contains(
                    #[trigger] (provided->Ok_0).volumes[i],
                )) && (forall|i: int|
                0 <= i < (provided->Ok_0).mounts.len() ==> after.mounts.contains(
                    #[trigger] (provided->Ok_0).mounts[i],
                ))
        },
{
    if let Ok(after) = needs_added(needs, service, credentials_mount, provided, before) {
        if !(needs is Nothing) {
            let added = provided->Ok_0;
            let start = match needs {
                BackendNeedsView::Kerberos(secret_class) => kerberos_added(
                    secret_class,
                    service,
                    before,
                )->Ok_0,
                BackendNeedsView::Credentials(secret) => credentials_added(
                    secret,
                    credentials_mount,
                    before,
                )->Ok_0,
                _ => before,
            };
            if let BackendNeedsView::Kerberos(secret_class) = needs {
                lemma_volume_added(before.volumes, kerberos_volume_view(secret_class, service));
                lemma_mount_added(before.mounts, mount_view(KERBEROS_VOLUME_NAME@, KERBEROS_DIR@));
            }
            if let BackendNeedsView::Credentials(secret) = needs {
                lemma_volume_added(
                    before.volumes,
                    secret_volume_view(credentials_mount.name, secret),
                );
                lemma_mount_added(before.mounts, credentials_mount);
            }
            lemma_volumes_added(start.volumes, added.volumes);
            lemma_mounts_added(start.mounts, added.mounts);
            if let BackendNeedsView::Kerberos(secret_class) = needs {
                let volume = kerberos_volume_view(secret_class, service);
                let i = choose|i: int| 0 <= i < start.volumes.len() && start.volumes[i] == volume;
                assert(after.volumes[i] == volume);
                let mount = mount_view(KERBEROS_VOLUME_NAME@, KERBEROS_DIR@);
                let j = choose|j: int| 0 <= j < start.mounts.len() && start.mounts[j] == mount;
                assert(after.mounts[j] == mount);
            }
            if let BackendNeedsView::Credentials(secret) = needs {
                let volume = secret_volume_view(credentials_mount.name, secret);
                let i = choose|i: int| 0 <= i < start.volumes.len() && start.volumes[i] == volume;
                assert(after.volumes[i] == volume);
                let j = choose|j: int|
                    0 <= j < start.mounts.len() && start.mounts[j] == credentials_mount;
                assert(after.mounts[j] == credentials_mount);
            }
        }
    }
}

/// What is provided for a backend that failed to be provided is a failure of that backend, with the
/// reason. LDAP and TLS are told apart.
pub proof fn lemma_unprovided_needs(
    needs: BackendNeedsView,
    service: Seq<char>,
    credentials_mount: VolumeMountView,
    reason: Seq<char>,
    before: SidecarVolumes,
)
    ensures
        needs is Nothing ==> needs_added(needs, service, credentials_mount, Err(reason), before)
            is Ok,
        needs is Ldap ==> needs_added(needs, service, credentials_mount, Err(reason), before)
            == Err::<SidecarVolumes, _>(ErrorView::LdapVolumeAndMounts(reason)),
        needs is Kerberos && kerberos_added(needs->Kerberos_0, service, before) is Ok
            ==> needs_added(needs, service, credentials_mount, Err(reason), before) == Err::<
            SidecarVolumes,
            _,
        >(ErrorView::TlsVolumeAndMounts(reason)),
        needs is Credentials && credentials_added(needs->Credentials_0, credentials_mount, before)
            is Ok ==> needs_added(needs, service, credentials_mount, Err(reason), before) == Err::<
            SidecarVolumes,
            _,
        >(ErrorView::TlsVolumeAndMounts(reason)),
{
}

} // verus!
