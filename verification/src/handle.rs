//! Ownership of native resources: a handle wraps one native value and
//! knows whether it is the one that has to release it.

use vstd::prelude::*;
use crate::error::Error;

verus! {

/// The kinds of native resource, each with its own release function.
#[derive(Debug, Clone, Copy, PartialEq, Eq, Structural)]
pub enum ResourceKind {
    Image,
    Texture,
    RenderTexture,
    Font,
    Shader,
    Mesh,
    Material,
    Model,
    ModelAnimation,
    Wave,
    Sound,
    SoundAlias,
    Music,
    AudioStream,
    AutomationEvents,
    PhysicsBody,
    VrStereoConfig,
}

impl ResourceKind {
    /// The name under which a failed load of this kind is reported.
    pub open spec fn spec_name(self) -> Seq<char> {
        match self {
            ResourceKind::Image => "image"@,
            ResourceKind::Texture => "texture"@,
            ResourceKind::RenderTexture => "render texture"@,
            ResourceKind::Font => "font"@,
            ResourceKind::Shader => "shader"@,
            ResourceKind::Mesh => "mesh"@,
            ResourceKind::Material => "material"@,
            ResourceKind::Model => "model"@,
            ResourceKind::ModelAnimation => "model animation"@,
            ResourceKind::Wave => "wave"@,
            ResourceKind::Sound => "sound"@,
            ResourceKind::SoundAlias => "sound alias"@,
            ResourceKind::Music => "music"@,
            ResourceKind::AudioStream => "audio stream"@,
            ResourceKind::AutomationEvents => "automation events"@,
            ResourceKind::PhysicsBody => "physics body"@,
            ResourceKind::VrStereoConfig => "vr stereo config"@,
        }
    }

    pub fn name(self) -> (r: &'static str)
        ensures
            r@ == self.spec_name(),
    {
        match self {
            ResourceKind::Image => "image",
            ResourceKind::Texture => "texture",
            ResourceKind::RenderTexture => "render texture",
            ResourceKind::Font => "font",
            ResourceKind::Shader => "shader",
            ResourceKind::Mesh => "mesh",
            ResourceKind::Material => "material",
            ResourceKind::Model => "model",
            ResourceKind::ModelAnimation => "model animation",
            ResourceKind::Wave => "wave",
            ResourceKind::Sound => "sound",
            ResourceKind::SoundAlias => "sound alias",
            ResourceKind::Music => "music",
            ResourceKind::AudioStream => "audio stream",
            ResourceKind::AutomationEvents => "automation events",
            ResourceKind::PhysicsBody => "physics body",
            ResourceKind::VrStereoConfig => "vr stereo config",
        }
    }
}

/// The one release call that an owned handle owes the native library:
/// the release function of `kind`, applied to `value`.
#[derive(Debug)]
pub struct Release<T> {
    pub kind: ResourceKind,
    pub value: T,
}

/// One native value and the duty, or not, to release it.
#[derive(Debug)]
pub struct ResourceHandle<T> {
    inner: T,
    owned: bool,
    kind: ResourceKind,
}

impl<T> ResourceHandle<T> {
    /// The native value that the handle wraps.
    pub closed spec fn value(&self) -> T {
        self.inner
    }

    /// Whether this handle is the one that releases the value.
    pub closed spec fn is_owned(&self) -> bool {
        self.owned
    }

    /// The kind of resource, which fixes the release function.
    pub closed spec fn spec_kind(&self) -> ResourceKind {
        self.kind
    }

    /// What the native library is owed when the handle ends: one release
    /// of the value if the handle owns it, nothing otherwise.
    pub open spec fn owed(&self) -> Option<Release<T>> {
        if self.is_owned() {
            Some(Release { kind: self.spec_kind(), value: self.value() })
        } else {
            None
        }
    }

    /// A handle that will release `inner` when it ends. The caller
    /// vouches that `inner` is a fresh native allocation.
    pub fn owned(kind: ResourceKind, inner: T) -> (r: Self)
        ensures
            r.value() == inner,
            r.spec_kind() == kind,
            r.is_owned(),
    {
        ResourceHandle { inner, owned: true, kind }
    }

    /// A view of a value that something else releases.
    pub fn unowned(kind: ResourceKind, inner: T) -> (r: Self)
        ensures
            r.value() == inner,
            r.spec_kind() == kind,
            !r.is_owned(),
    {
        ResourceHandle { inner, owned: false, kind }
    }

    /// Wraps what a native loader returned, given the verdict of the
    /// native validity check on it. An invalid value gets no handle.
    pub fn from_loaded(kind: ResourceKind, inner: T, valid: bool) -> (r: Result<Self, Error>)
        ensures
            valid ==> r is Ok && r->Ok_0.value() == inner && r->Ok_0.spec_kind() == kind
                && r->Ok_0.is_owned(),
            !valid ==> r is Err && r->Err_0.is_unable_to_load(kind.spec_name()),
    {
        if valid {
            Ok(ResourceHandle { inner, owned: true, kind })
        } else {
            Err(Error::UnableToLoad(kind.name()))
        }
    }

    /// Wraps the deep copy that the native library made of this handle's
    /// value. The copy is owned, whatever the source is.
    pub fn copied(&self, copy: T) -> (r: Self)
        ensures
            r.value() == copy,
            r.spec_kind() == self.spec_kind(),
            r.is_owned(),
    {
        ResourceHandle { inner: copy, owned: true, kind: self.kind }
    }

    pub fn kind(&self) -> (r: ResourceKind)
        ensures
            r == self.spec_kind(),
    {
        self.kind
    }

    pub fn owns(&self) -> (r: bool)
        ensures
            r == self.is_owned(),
    {
        self.owned
    }

    /// The wrapped value. It must not be released through this
    /// reference.
    pub fn as_raw(&self) -> (r: &T)
        ensures
            *r == self.value(),
    {
        &self.inner
    }

    /// Mutable access to the wrapped value; kind and ownership stay.
    pub fn as_mut(&mut self) -> (r: &mut T)
        ensures
            *r == old(self).value(),
            final(self).value() == *final(r),
            final(self).spec_kind() == old(self).spec_kind(),
            final(self).is_owned() == old(self).is_owned(),
    {
        &mut self.inner
    }

    /// Ends the handle. Returns the release call to make, if any.
    pub fn release(self) -> (r: Option<Release<T>>)
        ensures
            r == self.owed(),
    {
        if self.owned {
            Some(Release { kind: self.kind, value: self.inner })
        } else {
            None
        }
    }
}

/// The release calls that the handles owe, in the order of the handles:
/// one for each handle that owns its value.
pub open spec fn owed_by<T>(handles: Seq<ResourceHandle<T>>) -> Seq<Release<T>>
    decreases handles.len(),
{
    if handles.len() == 0 {
        Seq::empty()
    } else {
        let rest = owed_by(handles.drop_last());
        match handles.last().owed() {
            Some(release) => rest.push(release),
            None => rest,
        }
    }
}

/// Where the first value that failed its validity check stands: at `n`,
/// or nowhere for `n` the number of values.
pub open spec fn is_first_invalid(valid: Seq<bool>, n: int) -> bool {
    &&& 0 <= n <= valid.len()
    &&& forall|k: int| 0 <= k < n ==> valid[k]
    &&& n < valid.len() ==> !valid[n]
}

/// The same items, last first.
fn reversed<U>(items: Vec<U>) -> (r: Vec<U>)
    ensures
        r@.len() == items@.len(),
        forall|k: int| 0 <= k < r@.len() ==> r@[k] == items@[items@.len() - 1 - k],
{
    let mut items = items;
    let ghost given = items@;
    let mut out: Vec<U> = Vec::new();
    while items.len() > 0
        invariant
            out@.len() + items@.len() == given.len(),
            forall|k: int| 0 <= k < items@.len() ==> items@[k] == given[k],
            forall|k: int| 0 <= k < out@.len() ==> out@[k] == given[given.len() - 1 - k],
        decreases items@.len(),
    {
        let item = items.pop().unwrap();
        out.push(item);
    }
    out
}

/// Ends the handles, first to last, and returns the release calls to
/// make, in that order.
pub fn release_all<T>(handles: Vec<ResourceHandle<T>>) -> (r: Vec<Release<T>>)
    ensures
        r@ == owed_by(handles@),
{
    let ghost given = handles@;
    let mut rest = reversed(handles);
    let mut out: Vec<Release<T>> = Vec::new();
    let ghost mut done: int = 0;
    assert(given.take(0) =~= Seq::<ResourceHandle<T>>::empty());
    while rest.len() > 0
        invariant
            0 <= done <= given.len(),
            rest@.len() == given.len() - done,
            forall|k: int| 0 <= k < rest@.len() ==> rest@[k] == given[given.len() - 1 - k],
            out@ == owed_by(given.take(done)),
        decreases rest@.len(),
    {
        let handle = rest.pop().unwrap();
        proof {
            assert(handle == given[done]);
            assert(given.take(done + 1).drop_last() =~= given.take(done));
            assert(given.take(done + 1).last() == handle);
            done = done + 1;
        }
        match handle.release() {
            Some(release) => {
                out.push(release);
            },
            None => {},
        }
    }
    assert(given.take(done) =~= given);
    out
}

/// Wraps each value in a handle of its own, which owns it or not as
/// `owned` says.
fn wrap_each<T>(kind: ResourceKind, values: Vec<T>, owned: bool) -> (r: Vec<ResourceHandle<T>>)
    ensures
        r@.len() == values@.len(),
        forall|k: int| 0 <= k < r@.len() ==> (#[trigger] r@[k]).value() == values@[k] && r@[k].is_owned()
            == owned && r@[k].spec_kind() == kind,
{
    let ghost given = values@;
    let mut rest = reversed(values);
    let mut out: Vec<ResourceHandle<T>> = Vec::new();
    while rest.len() > 0
        invariant
            out@.len() + rest@.len() == given.len(),
            forall|k: int| 0 <= k < rest@.len() ==> rest@[k] == given[given.len() - 1 - k],
            forall|k: int| 0 <= k < out@.len() ==> (#[trigger] out@[k]).value() == given[k] && out@[k].is_owned()
                == owned && out@[k].spec_kind() == kind,
        decreases rest@.len(),
    {
        let value = rest.pop().unwrap();
        let handle = if owned {
            ResourceHandle::owned(kind, value)
        } else {
            ResourceHandle::unowned(kind, value)
        };
        out.push(handle);
    }
    out
}

/// Wraps each value in a view: the values belong to something else,
/// such as the items of a list that is released as a whole, and no
/// handle releases its value.
pub fn unowned_all<T>(kind: ResourceKind, values: Vec<T>) -> (r: Vec<ResourceHandle<T>>)
    ensures
        r@.len() == values@.len(),
        forall|k: int| 0 <= k < r@.len() ==> (#[trigger] r@[k]).value() == values@[k] && !r@[k].is_owned()
            && r@[k].spec_kind() == kind,
        owed_by(r@).len() == 0,
{
    let out = wrap_each(kind, values, false);
    proof {
        lemma_unowned_owe_nothing(out@);
    }
    out
}

/// Where the first `false` stands in `valid`, or its length where all
/// are `true`.
fn first_invalid(valid: &Vec<bool>) -> (r: usize)
    ensures
        is_first_invalid(valid@, r as int),
{
    let mut i: usize = 0;
    while i < valid.len() && valid[i]
        invariant
            0 <= i <= valid@.len(),
            forall|k: int| 0 <= k < i ==> valid@[k],
        decreases valid@.len() - i,
    {
        i += 1;
    }
    i
}

/// Wraps what a native loader of several values returned, given the
/// verdict of the native validity check on each. Where all are valid,
/// each gets a handle that owns it. Otherwise nothing is handed out: the
/// values before the first invalid one had been taken over and are
/// released, and the error comes with the calls that release them, in
/// their order.
pub fn from_loaded_all<T>(kind: ResourceKind, values: Vec<T>, valid: &Vec<bool>) -> (r: Result<
    Vec<ResourceHandle<T>>,
    (Error, Vec<Release<T>>),
>)
    requires
        values@.len() == valid@.len(),
    ensures
        forall|n: int|
            is_first_invalid(valid@, n) && n == valid@.len() ==> r is Ok && r->Ok_0@.len() == n && (forall|
                k: int,
            |
                0 <= k < n ==> (#[trigger] r->Ok_0@[k]).value() == values@[k] && r->Ok_0@[k].is_owned()
                    && r->Ok_0@[k].spec_kind() == kind),
        forall|n: int|
            is_first_invalid(valid@, n) && n < valid@.len() ==> r is Err && r->Err_0.0.is_unable_to_load(
                kind.spec_name(),
            ) && r->Err_0.1@ == Seq::new(
                n as nat,
                |k: int| (Release { kind: kind, value: values@[k] }),
            ),
{
    let ghost given = values@;
    let bad = first_invalid(valid);
    assert forall|n: int| is_first_invalid(valid@, n) implies n == bad by {
        if n < bad {
            assert(valid@[n]);
        } else if n > bad {
            assert(valid@[bad as int]);
        }
    }
    if bad == valid.len() {
        Ok(wrap_each(kind, values, true))
    } else {
        let mut values = values;
        values.truncate(bad);
        let taken = wrap_each(kind, values, true);
        proof {
            lemma_owned_owe_all(taken@);
        }
        let releases = release_all(taken);
        assert(releases@ =~= Seq::new(
            bad as nat,
            |k: int| (Release { kind: kind, value: given[k] }),
        ));
        Err((Error::UnableToLoad(kind.name()), releases))
    }
}

/// Handles that all own their values owe one release each, of the
/// handle's own value and kind.
pub proof fn lemma_owned_owe_all<T>(handles: Seq<ResourceHandle<T>>)
    requires
        forall|k: int| 0 <= k < handles.len() ==> (#[trigger] handles[k]).is_owned(),
    ensures
        owed_by(handles).len() == handles.len(),
        forall|k: int| 0 <= k < handles.len() ==> (#[trigger] owed_by(handles)[k]) == (Release {
            kind: handles[k].spec_kind(),
            value: handles[k].value(),
        }),
    decreases handles.len(),
{
    if handles.len() > 0 {
        lemma_owned_owe_all(handles.drop_last());
    }
}

/// Handles that own nothing owe no release.
pub proof fn lemma_unowned_owe_nothing<T>(handles: Seq<ResourceHandle<T>>)
    requires
        forall|k: int| 0 <= k < handles.len() ==> !(#[trigger] handles[k]).is_owned(),
    ensures
        owed_by(handles).len() == 0,
    decreases handles.len(),
{
    if handles.len() > 0 {
        lemma_unowned_owe_nothing(handles.drop_last());
    }
}

/// A handle owes exactly one release, of its own value and kind, if it
/// owns the value, and none if it does not.
pub proof fn lemma_release_by_ownership<T>(handle: ResourceHandle<T>)
    ensures
        handle.is_owned() ==> handle.owed() == Some(
            Release { kind: handle.spec_kind(), value: handle.value() },
        ),
        !handle.is_owned() ==> handle.owed() is None,
        owed_by(seq![handle]).len() == if handle.is_owned() {
            1int
        } else {
            0int
        },
{
    let one = seq![handle];
    assert(one.drop_last() =~= Seq::<ResourceHandle<T>>::empty());
    assert(owed_by(one.drop_last()).len() == 0);
}

} // verus!
