//! Rules for putting Pods together.
use crate::kubernetes::pod::{Volume, VolumeMount, VolumeMountView, VolumeView};
use crate::value::{push_item, Value};
use vstd::prelude::*;

verus! {

/// The product image that a cluster runs.
#[derive(Clone, Debug, PartialEq, Eq)]
pub struct ResolvedProductImage {
    pub product_version: String,
    /// The product version as it is written to labels.
    pub app_version_label_value: String,
    pub image: String,
    pub image_pull_policy: String,
    /// The names of the Secrets that hold registry credentials.
    pub pull_secrets: Vec<String>,
}

/// The contents of a [`ResolvedProductImage`].
#[verifier::ext_equal]
pub struct ResolvedProductImageView {
    pub product_version: Seq<char>,
    pub app_version_label_value: Seq<char>,
    pub image: Seq<char>,
    pub image_pull_policy: Seq<char>,
    pub pull_secrets: Seq<Seq<char>>,
}

impl DeepView for ResolvedProductImage {
    type V = ResolvedProductImageView;

    open spec fn deep_view(&self) -> ResolvedProductImageView {
        ResolvedProductImageView {
            product_version: self.product_version.deep_view(),
            app_version_label_value: self.app_version_label_value.deep_view(),
            image: self.image.deep_view(),
            image_pull_policy: self.image_pull_policy.deep_view(),
            pull_secrets: self.pull_secrets.deep_view(),
        }
    }
}

impl Value for ResolvedProductImage {
    fn duplicate(&self) -> (copy: Self) {
        ResolvedProductImage {
            product_version: self.product_version.duplicate(),
            app_version_label_value: self.app_version_label_value.duplicate(),
            image: self.image.duplicate(),
            image_pull_policy: self.image_pull_policy.duplicate(),
            pull_secrets: self.pull_secrets.duplicate(),
        }
    }

    fn same_as(&self, other: &Self) -> (same: bool) {
        self.product_version.same_as(&other.product_version)
            && self.app_version_label_value.same_as(&other.app_version_label_value)
            && self.image.same_as(&other.image)
            && self.image_pull_policy.same_as(&other.image_pull_policy)
            && self.pull_secrets.same_as(&other.pull_secrets)
    }
}

/// Two parts of a Pod that cannot stand next to each other.
#[derive(Clone, Debug, PartialEq, Eq)]
pub enum CollisionError {
    /// Two different volumes have this name.
    VolumeName(String),
    /// Two different volumes are mounted at this path.
    MountPath(String),
}

/// The contents of a [`CollisionError`].
#[verifier::ext_equal]
pub enum CollisionErrorView {
    VolumeName(Seq<char>),
    MountPath(Seq<char>),
}

impl DeepView for CollisionError {
    type V = CollisionErrorView;

    open spec fn deep_view(&self) -> CollisionErrorView {
        match self {
            CollisionError::VolumeName(inner) => CollisionErrorView::VolumeName(inner.deep_view()),
            CollisionError::MountPath(inner) => CollisionErrorView::MountPath(inner.deep_view()),
        }
    }
}

impl Value for CollisionError {
    fn duplicate(&self) -> (copy: Self) {
        match self {
            CollisionError::VolumeName(inner) => CollisionError::VolumeName(inner.duplicate()),
            CollisionError::MountPath(inner) => CollisionError::MountPath(inner.duplicate()),
        }
    }

    fn same_as(&self, other: &Self) -> (same: bool) {
        match (self, other) {
            (CollisionError::VolumeName(left), CollisionError::VolumeName(right)) => {
                left.same_as(right)
            },
            (CollisionError::MountPath(left), CollisionError::MountPath(right)) => {
                left.same_as(right)
            },
            _ => false,
        }
    }
}

/// The volumes after one more was added: a volume that is already there is not added again, and a
/// different volume of the same name is a collision.
pub open spec fn volume_added(volumes: Seq<VolumeView>, volume: VolumeView) -> Result<
    Seq<VolumeView>,
    CollisionErrorView,
> {
    if volumes.contains(volume) {
        Ok(volumes)
    } else if exists|i: int| 0 <= i < volumes.len() && (#[trigger] volumes[i]).name == volume.name {
        Err(CollisionErrorView::VolumeName(volume.name))
    } else {
        Ok(volumes.push(volume))
    }
}

/// The mounts after one more was added: a mount that is already there is not added again, and a
/// different mount at the same path is a collision.
pub open spec fn mount_added(
    mounts: Seq<VolumeMountView>,
    mount: VolumeMountView,
) -> Result<Seq<VolumeMountView>, CollisionErrorView> {
    if mounts.contains(mount) {
        Ok(mounts)
    } else if exists|i: int| 0 <= i < mounts.len() && (#[trigger] mounts[i]).mount_path
        == mount.mount_path {
        Err(CollisionErrorView::MountPath(mount.mount_path))
    } else {
        Ok(mounts.push(mount))
    }
}

/// The volumes after all of `added` were added, in their order.
pub open spec fn volumes_added(
    volumes: Seq<VolumeView>,
    added: Seq<VolumeView>,
) -> Result<Seq<VolumeView>, CollisionErrorView>
    decreases added.len(),
{
    if added.len() == 0 {
        Ok(volumes)
    } else {
        match volumes_added(volumes, added.drop_last()) {
            Ok(volumes) => volume_added(volumes, added.last()),
            Err(error) => Err(error),
        }
    }
}

/// The mounts after all of `added` were added, in their order.
pub open spec fn mounts_added(
    mounts: Seq<VolumeMountView>,
    added: Seq<VolumeMountView>,
) -> Result<Seq<VolumeMountView>, CollisionErrorView>
    decreases added.len(),
{
    if added.len() == 0 {
        Ok(mounts)
    } else {
        match mounts_added(mounts, added.drop_last()) {
            Ok(mounts) => mount_added(mounts, added.last()),
            Err(error) => Err(error),
        }
    }
}

/// Whether every volume has a name of its own.
pub open spec fn volume_names_unique(volumes: Seq<VolumeView>) -> bool {
    forall|i: int, j: int|
        0 <= i < j < volumes.len() ==> #[trigger] volumes[i].name != #[trigger] volumes[j].name
}

/// Whether every mount has a path of its own.
pub open spec fn mount_paths_unique(mounts: Seq<VolumeMountView>) -> bool {
    forall|i: int, j: int|
        0 <= i < j < mounts.len() ==> #[trigger] mounts[i].mount_path
            != #[trigger] mounts[j].mount_path
}

/// Adding a volume keeps the names unique, and the volume is there afterwards.
pub proof fn lemma_volume_added(volumes: Seq<VolumeView>, volume: VolumeView)
    requires
        volume_names_unique(volumes),
        volume_added(volumes, volume) is Ok,
    ensures
        volume_names_unique(volume_added(volumes, volume)->Ok_0),
        volume_added(volumes, volume)->Ok_0.contains(volume),
        volumes.is_prefix_of(volume_added(volumes, volume)->Ok_0),
{
    let after = volume_added(volumes, volume)->Ok_0;
    if !volumes.contains(volume) {
        assert(after[after.len() - 1] == volume);
    }
}

/// Adding a mount keeps the paths unique, and the mount is there afterwards.
pub proof fn lemma_mount_added(mounts: Seq<VolumeMountView>, mount: VolumeMountView)
    requires
        mount_paths_unique(mounts),
        mount_added(mounts, mount) is Ok,
    ensures
        mount_paths_unique(mount_added(mounts, mount)->Ok_0),
        mount_added(mounts, mount)->Ok_0.contains(mount),
        mounts.is_prefix_of(mount_added(mounts, mount)->Ok_0),
{
    let after = mount_added(mounts, mount)->Ok_0;
    if !mounts.contains(mount) {
        assert(after[after.len() - 1] == mount);
    }
}

/// Adding volumes keeps the names unique and what was there before.
pub proof fn lemma_volumes_added(volumes: Seq<VolumeView>, added: Seq<VolumeView>)
    requires
        volume_names_unique(volumes),
        volumes_added(volumes, added) is Ok,
    ensures
        volume_names_unique(volumes_added(volumes, added)->Ok_0),
        volumes.is_prefix_of(volumes_added(volumes, added)->Ok_0),
        forall|i: int|
            0 <= i < added.len() ==> volumes_added(volumes, added)->Ok_0.contains(#[trigger] added[i]),
    decreases added.len(),
{
    if added.len() > 0 {
        lemma_volumes_added(volumes, added.drop_last());
        let before = volumes_added(volumes, added.drop_last())->Ok_0;
        lemma_volume_added(before, added.last());
        let after = volumes_added(volumes, added)->Ok_0;
        assert forall|i: int| 0 <= i < added.len() implies after.contains(#[trigger] added[i]) by {
            if i < added.len() - 1 {
                assert(added.drop_last()[i] == added[i]);
                let at = choose|k: int| 0 <= k < before.len() && before[k] == added[i];
                assert(after[at] == added[i]);
            }
        }
    }
}

/// Adding mounts keeps the paths unique and what was there before.
pub proof fn lemma_mounts_added(mounts: Seq<VolumeMountView>, added: Seq<VolumeMountView>)
    requires
        mount_paths_unique(mounts),
        mounts_added(mounts, added) is Ok,
    ensures
        mount_paths_unique(mounts_added(mounts, added)->Ok_0),
        mounts.is_prefix_of(mounts_added(mounts, added)->Ok_0),
        forall|i: int|
            0 <= i < added.len() ==> mounts_added(mounts, added)->Ok_0.contains(#[trigger] added[i]),
        forall|i: int|
            0 <= i < mounts_added(mounts, added)->Ok_0.len() ==> mounts.contains(
                #[trigger] (mounts_added(mounts, added)->Ok_0)[i],
            ) || added.contains((mounts_added(mounts, added)->Ok_0)[i]),
    decreases added.len(),
{
    if added.len() > 0 {
        lemma_mounts_added(mounts, added.drop_last());
        let before = mounts_added(mounts, added.drop_last())->Ok_0;
        lemma_mount_added(before, added.last());
        let after = mounts_added(mounts, added)->Ok_0;
        assert forall|i: int| 0 <= i < added.len() implies after.contains(#[trigger] added[i]) by {
            if i < added.len() - 1 {
                assert(added.drop_last()[i] == added[i]);
                let at = choose|k: int| 0 <= k < before.len() && before[k] == added[i];
                assert(after[at] == added[i]);
            }
        }
        assert forall|i: int| 0 <= i < after.len() implies mounts.contains(#[trigger] after[i])
            || added.contains(after[i]) by {
            if i < before.len() {
                assert(after[i] == before[i]);
                if !mounts.contains(after[i]) {
                    let at = choose|k: int|
                        0 <= k < added.drop_last().len() && added.drop_last()[k] == after[i];
                    assert(added[at] == after[i]);
                }
            } else {
                assert(after[i] == added[added.len() - 1]);
            }
        }
    } else {
        assert forall|i: int| 0 <= i < mounts.len() implies mounts.contains(#[trigger] mounts[i]) by {}
    }
}

/// Adds a volume to a Pod.
pub fn add_volume(volumes: &mut Vec<Volume>, volume: Volume) -> (result: Result<(), CollisionError>)
    ensures
        match volume_added(old(volumes).deep_view(), volume.deep_view()) {
            Ok(after) => result is Ok && final(volumes).deep_view() == after,
            Err(collision) => result matches Err(error) && error.deep_view() == collision
                && final(volumes).deep_view() == old(volumes).deep_view(),
        },
{
    let ghost before = volumes.deep_view();
    let ghost wanted = volume.deep_view();
    let mut i: usize = 0;
    let mut name_taken = false;
    while i < volumes.len()
        invariant
            i <= volumes.len(),
            volumes.deep_view() == before,
            volume.deep_view() == wanted,
            forall|j: int| 0 <= j < i ==> #[trigger] before[j] != wanted,
            name_taken == (exists|j: int| 0 <= j < i && (#[trigger] before[j]).name == wanted.name),
        decreases volumes.len() - i,
    {
        assert(before[i as int] == volumes[i as int].deep_view());
        if volumes[i].same_as(&volume) {
            assert(before.contains(wanted));
            return Ok(());
        }
        if volumes[i].name == volume.name {
            name_taken = true;
        }
        i += 1;
    }
    assert(!before.contains(wanted));
    if name_taken {
        return Err(CollisionError::VolumeName(volume.name));
    }
    push_item(volumes, volume);
    Ok(())
}

/// Mounts a volume into a container.
pub fn add_volume_mount(mounts: &mut Vec<VolumeMount>, mount: VolumeMount) -> (result: Result<
    (),
    CollisionError,
>)
    ensures
        match mount_added(old(mounts).deep_view(), mount.deep_view()) {
            Ok(after) => result is Ok && final(mounts).deep_view() == after,
            Err(collision) => result matches Err(error) && error.deep_view() == collision
                && final(mounts).deep_view() == old(mounts).deep_view(),
        },
{
    let ghost before = mounts.deep_view();
    let ghost wanted = mount.deep_view();
    let mut i: usize = 0;
    let mut path_taken = false;
    while i < mounts.len()
        invariant
            i <= mounts.len(),
            mounts.deep_view() == before,
            mount.deep_view() == wanted,
            forall|j: int| 0 <= j < i ==> #[trigger] before[j] != wanted,
            path_taken == (exists|j: int|
                0 <= j < i && (#[trigger] before[j]).mount_path == wanted.mount_path),
        decreases mounts.len() - i,
    {
        assert(before[i as int] == mounts[i as int].deep_view());
        if mounts[i].same_as(&mount) {
            assert(before.contains(wanted));
            return Ok(());
        }
        if mounts[i].mount_path == mount.mount_path {
            path_taken = true;
        }
        i += 1;
    }
    assert(!before.contains(wanted));
    if path_taken {
        return Err(CollisionError::MountPath(mount.mount_path));
    }
    push_item(mounts, mount);
    Ok(())
}

/// Whether `items` begin with `start`.
pub open spec fn begins_with<T>(items: Seq<T>, start: Seq<T>) -> bool {
    &&& start.len() <= items.len()
    &&& forall|i: int| 0 <= i < start.len() ==> #[trigger] items[i] == start[i]
}

/// Adds volumes to a Pod, in their order. Those before one that collides are added.
pub fn add_volumes(volumes: &mut Vec<Volume>, added: &Vec<Volume>) -> (result: Result<
    (),
    CollisionError,
>)
    ensures
        match volumes_added(old(volumes).deep_view(), added.deep_view()) {
            Ok(after) => result is Ok && final(volumes).deep_view() == after,
            Err(collision) => result matches Err(error) && error.deep_view() == collision,
        },
        begins_with(final(volumes).deep_view(), old(volumes).deep_view()),
{
    let ghost before = volumes.deep_view();
    let ghost all = added.deep_view();
    let mut i: usize = 0;
    while i < added.len()
        invariant
            i <= added.len(),
            all == added.deep_view(),
            before == old(volumes).deep_view(),
            begins_with(volumes.deep_view(), before),
            volumes_added(before, all.take(i as int)) == Ok::<_, CollisionErrorView>(volumes.deep_view()),
        decreases added.len() - i,
    {
        proof {
            assert(all.take(i + 1).drop_last() =~= all.take(i as int));
            assert(all.take(i + 1).last() == added[i as int].deep_view());
        }
        if let Err(error) = add_volume(volumes, added[i].duplicate()) {
            proof {
                lemma_volumes_fail(before, all, i + 1);
            }
            return Err(error);
        }
        i += 1;
    }
    assert(all.take(i as int) =~= all);
    Ok(())
}

proof fn lemma_volumes_fail(volumes: Seq<VolumeView>, added: Seq<VolumeView>, n: int)
    requires
        0 <= n <= added.len(),
        volumes_added(volumes, added.take(n)) is Err,
    ensures
        volumes_added(volumes, added) == volumes_added(volumes, added.take(n)),
    decreases added.len(),
{
    if n == added.len() {
        assert(added.take(n) =~= added);
    } else {
        assert(added.drop_last().take(n) =~= added.take(n));
        lemma_volumes_fail(volumes, added.drop_last(), n);
    }
}

/// Mounts volumes into a container, in their order. Those before one that collides are mounted.
pub fn add_volume_mounts(mounts: &mut Vec<VolumeMount>, added: &Vec<VolumeMount>) -> (result: Result<
    (),
    CollisionError,
>)
    ensures
        match mounts_added(old(mounts).deep_view(), added.deep_view()) {
            Ok(after) => result is Ok && final(mounts).deep_view() == after,
            Err(collision) => result matches Err(error) && error.deep_view() == collision,
        },
        begins_with(final(mounts).deep_view(), old(mounts).deep_view()),
{
    let ghost before = mounts.deep_view();
    let ghost all = added.deep_view();
    let mut i: usize = 0;
    while i < added.len()
        invariant
            i <= added.len(),
            all == added.deep_view(),
            before == old(mounts).deep_view(),
            begins_with(mounts.deep_view(), before),
            mounts_added(before, all.take(i as int)) == Ok::<_, CollisionErrorView>(mounts.deep_view()),
        decreases added.len() - i,
    {
        proof {
            assert(all.take(i + 1).drop_last() =~= all.take(i as int));
            assert(all.take(i + 1).last() == added[i as int].deep_view());
        }
        if let Err(error) = add_volume_mount(mounts, added[i].duplicate()) {
            proof {
                lemma_mounts_fail(before, all, i + 1);
            }
            return Err(error);
        }
        i += 1;
    }
    assert(all.take(i as int) =~= all);
    Ok(())
}

proof fn lemma_mounts_fail(mounts: Seq<VolumeMountView>, added: Seq<VolumeMountView>, n: int)
    requires
        0 <= n <= added.len(),
        mounts_added(mounts, added.take(n)) is Err,
    ensures
        mounts_added(mounts, added) == mounts_added(mounts, added.take(n)),
    decreases added.len(),
{
    if n == added.len() {
        assert(added.take(n) =~= added);
    } else {
        assert(added.drop_last().take(n) =~= added.take(n));
        lemma_mounts_fail(mounts, added.drop_last(), n);
    }
}

/// A volume is refused exactly where another one has its name, and a mount where another one has its
/// path. The refusal tells that name or path.
pub proof fn lemma_collisions(
    volumes: Seq<VolumeView>,
    volume: VolumeView,
    mounts: Seq<VolumeMountView>,
    mount: VolumeMountView,
)
    requires
        volume_names_unique(volumes),
        mount_paths_unique(mounts),
    ensures
        volume_added(volumes, volume) is Err <==> exists|i: int|
            0 <= i < volumes.len() && (#[trigger] volumes[i]).name == volume.name && volumes[i]
                != volume,
        volume_added(volumes, volume) is Err ==> volume_added(volumes, volume)->Err_0
            == CollisionErrorView::VolumeName(volume.name),
        mount_added(mounts, mount) is Err <==> exists|i: int|
            0 <= i < mounts.len() && (#[trigger] mounts[i]).mount_path == mount.mount_path
                && mounts[i] != mount,
        mount_added(mounts, mount) is Err ==> mount_added(mounts, mount)->Err_0
            == CollisionErrorView::MountPath(mount.mount_path),
{
    if volumes.contains(volume) {
        let k = choose|k: int| 0 <= k < volumes.len() && volumes[k] == volume;
        assert forall|i: int| 0 <= i < volumes.len() && (#[trigger] volumes[i]).name
            == volume.name implies volumes[i] == volume by {
            assert(volumes[k].name == volume.name);
        }
    }
    if mounts.contains(mount) {
        let k = choose|k: int| 0 <= k < mounts.len() && mounts[k] == mount;
        assert forall|i: int| 0 <= i < mounts.len() && (#[trigger] mounts[i]).mount_path
            == mount.mount_path implies mounts[i] == mount by {
            assert(mounts[k].mount_path == mount.mount_path);
        }
    }
}

} // verus!
