//! The handle registry: the safety boundary's lifetime model.
//!
//! The host never holds an options object directly; it holds an opaque
//! integer handle into this registry. Creation inserts a slot, destruction
//! empties it, and every accessor validates the handle first: a handle
//! that was never issued, or whose slot was destroyed, yields
//! `InvalidHandle` and leaves the registry untouched — never undefined
//! behavior. A handle is issued once and never reused while the registry
//! lives, so a stale handle stays invalid forever.

use vstd::prelude::*;

use crate::errors::RenderError;
use crate::options::{
    image_applied, is_fresh_options, same_but_fonts, shape_applied, text_applied, RenderOptions,
};
use crate::engine::{db_len, svg_text_parses};
use crate::render::{render, render_post, RenderType};

verus! {

/// Mutable access to one slot of the slot vector.
fn slot_mut(v: &mut Vec<Option<RenderOptions>>, i: usize) -> (element: &mut Option<RenderOptions>)
    requires
        i < old(v)@.len(),
    ensures
        *element == old(v)@[i as int],
        final(v)@ == old(v)@.update(i as int, *final(element)),
{
    &mut v[i]
}

/// The registry of live rendering-options objects, addressed by handle.
pub struct Registry {
    /// One slot per handle ever issued; a destroyed handle's slot is None.
    slots: Vec<Option<RenderOptions>>,
}

impl Registry {
    /// The slots, one per issued handle.
    pub closed spec fn slots_view(self) -> Seq<Option<RenderOptions>> {
        self.slots@
    }

    /// The handle names a live (issued and not destroyed) options object.
    pub open spec fn valid_handle(self, h: usize) -> bool {
        h < self.slots_view().len() && self.slots_view()[h as int] is Some
    }

    /// The options object a live handle names.
    pub open spec fn options_at(self, h: usize) -> RenderOptions
        recommends
            self.valid_handle(h),
    {
        self.slots_view()[h as int]->Some_0
    }

    /// An empty registry: no handle is valid.
    pub fn new() -> (r: Registry)
        ensures
            r.slots_view().len() == 0,
    {
        Registry { slots: Vec::new() }
    }

    /// Issues a fresh handle to a new options object with the given
    /// resource directory, an empty font catalog and default quality
    /// modes. Existing slots are untouched.
    pub fn create(&mut self, resources_dir: String) -> (h: usize)
        ensures
            final(self).slots_view().len() == old(self).slots_view().len() + 1,
            forall|i: int|
                0 <= i < old(self).slots_view().len() ==> final(self).slots_view()[i] == old(self).slots_view()[i],
            h as int == old(self).slots_view().len(),
            final(self).valid_handle(h),
            is_fresh_options(final(self).options_at(h), resources_dir@),
    {
        let h = self.slots.len();
        self.slots.push(Some(RenderOptions::new(resources_dir)));
        h
    }

    /// Destroys the object behind a handle, releasing its fonts and
    /// settings. A second destroy of the same handle, or a destroy of a
    /// never-issued handle, yields `InvalidHandle` and changes nothing.
    /// Either way the handle is invalid afterwards.
    pub fn destroy(&mut self, h: usize) -> (r: Result<(), RenderError>)
        ensures
            old(self).valid_handle(h) ==> r is Ok && final(self).slots_view() == old(self).slots_view().update(h as int, None::<RenderOptions>),
            !old(self).valid_handle(h) ==> final(self).slots_view() == old(self).slots_view() && (
            r matches Err(e) && e is InvalidHandle),
            !final(self).valid_handle(h),
    {
        if h >= self.slots.len() {
            return Err(RenderError::InvalidHandle);
        }
        let slot = slot_mut(&mut self.slots, h);
        let taken = slot.take();
        match taken {
            Some(_dropped) => Ok(()),
            None => {
                proof {
                    assert(self.slots_view() =~= old(self).slots_view());
                }
                Err(RenderError::InvalidHandle)
            },
        }
    }

    /// Sets the shape-rendering mode of the object behind a live handle;
    /// an out-of-range code leaves the mode unchanged. A destroyed or
    /// never-issued handle yields `InvalidHandle` and changes nothing.
    pub fn set_shape_rendering(&mut self, h: usize, code: i32) -> (r: Result<(), RenderError>)
        ensures
            old(self).valid_handle(h) ==> r is Ok && final(self).slots_view() == old(self).slots_view().update(h as int, Some(shape_applied(old(self).options_at(h), code))),
            !old(self).valid_handle(h) ==> final(self).slots_view() == old(self).slots_view() && (
            r matches Err(e) && e is InvalidHandle),
    {
        if h >= self.slots.len() {
            return Err(RenderError::InvalidHandle);
        }
        let slot = slot_mut(&mut self.slots, h);
        match slot.take() {
            Some(mut o) => {
                o.set_shape_rendering(code);
                *slot = Some(o);
                Ok(())
            },
            None => {
                proof {
                    assert(self.slots_view() =~= old(self).slots_view());
                }
                Err(RenderError::InvalidHandle)
            },
        }
    }

    /// Sets the text-rendering mode of the object behind a live handle;
    /// an out-of-range code leaves the mode unchanged. A destroyed or
    /// never-issued handle yields `InvalidHandle` and changes nothing.
    pub fn set_text_rendering(&mut self, h: usize, code: i32) -> (r: Result<(), RenderError>)
        ensures
            old(self).valid_handle(h) ==> r is Ok && final(self).slots_view() == old(self).slots_view().update(h as int, Some(text_applied(old(self).options_at(h), code))),
            !old(self).valid_handle(h) ==> final(self).slots_view() == old(self).slots_view() && (
            r matches Err(e) && e is InvalidHandle),
    {
        if h >= self.slots.len() {
            return Err(RenderError::InvalidHandle);
        }
        let slot = slot_mut(&mut self.slots, h);
        match slot.take() {
            Some(mut o) => {
                o.set_text_rendering(code);
                *slot = Some(o);
                Ok(())
            },
            None => {
                proof {
                    assert(self.slots_view() =~= old(self).slots_view());
                }
                Err(RenderError::InvalidHandle)
            },
        }
    }

    /// Sets the image-rendering mode of the object behind a live handle;
    /// an out-of-range code leaves the mode unchanged. A destroyed or
    /// never-issued handle yields `InvalidHandle` and changes nothing.
    pub fn set_image_rendering(&mut self, h: usize, code: i32) -> (r: Result<(), RenderError>)
        ensures
            old(self).valid_handle(h) ==> r is Ok && final(self).slots_view() == old(self).slots_view().update(h as int, Some(image_applied(old(self).options_at(h), code))),
            !old(self).valid_handle(h) ==> final(self).slots_view() == old(self).slots_view() && (
            r matches Err(e) && e is InvalidHandle),
    {
        if h >= self.slots.len() {
            return Err(RenderError::InvalidHandle);
        }
        let slot = slot_mut(&mut self.slots, h);
        match slot.take() {
            Some(mut o) => {
                o.set_image_rendering(code);
                *slot = Some(o);
                Ok(())
            },
            None => {
                proof {
                    assert(self.slots_view() =~= old(self).slots_view());
                }
                Err(RenderError::InvalidHandle)
            },
        }
    }

    /// Best-effort load of the system fonts into the object behind a live
    /// handle: its directory and quality modes are untouched, its catalog
    /// only ever grows, and other slots are untouched. An invalid handle
    /// yields `InvalidHandle` and changes nothing.
    pub fn load_system_fonts(&mut self, h: usize) -> (r: Result<(), RenderError>)
        ensures
            old(self).valid_handle(h) ==> r is Ok && final(self).valid_handle(h) && final(self).slots_view().len() == old(self).slots_view().len() && same_but_fonts(
                old(self).options_at(h),
                final(self).options_at(h),
            ) && db_len(final(self).options_at(h).fontdb) >= db_len(
                old(self).options_at(h).fontdb,
            ) && (forall|i: int|
                0 <= i < old(self).slots_view().len() && i != h as int ==> final(self).slots_view()[i] == old(self).slots_view()[i]),
            !old(self).valid_handle(h) ==> final(self).slots_view() == old(self).slots_view() && (
            r matches Err(e) && e is InvalidHandle),
    {
        if h >= self.slots.len() {
            return Err(RenderError::InvalidHandle);
        }
        let slot = slot_mut(&mut self.slots, h);
        match slot.take() {
            Some(mut o) => {
                o.load_system_fonts();
                *slot = Some(o);
                Ok(())
            },
            None => {
                proof {
                    assert(self.slots_view() =~= old(self).slots_view());
                }
                Err(RenderError::InvalidHandle)
            },
        }
    }

    /// Loads one font file, best-effort, into the object behind a live
    /// handle, reporting whether the file was read: when it was not (a
    /// missing or unreadable file), the catalog is exactly unchanged and
    /// nothing is raised; directory and quality modes are untouched.
    /// An invalid handle yields `InvalidHandle` and changes nothing.
    pub fn load_font(&mut self, h: usize, path: &str) -> (r: Result<bool, RenderError>)
        ensures
            old(self).valid_handle(h) ==> final(self).valid_handle(h) && final(self).slots_view().len() == old(self).slots_view().len() && same_but_fonts(
                old(self).options_at(h),
                final(self).options_at(h),
            ) && (r matches Ok(loaded) && (!loaded ==> final(self).options_at(h).fontdb == old(
                self,
            ).options_at(h).fontdb)) && db_len(final(self).options_at(h).fontdb) >= db_len(
                old(self).options_at(h).fontdb,
            ) && (forall|i: int|
                0 <= i < old(self).slots_view().len() && i != h as int ==> final(self).slots_view()[i] == old(self).slots_view()[i]),
            !old(self).valid_handle(h) ==> final(self).slots_view() == old(self).slots_view() && (
            r matches Err(e) && e is InvalidHandle),
    {
        if h >= self.slots.len() {
            return Err(RenderError::InvalidHandle);
        }
        let slot = slot_mut(&mut self.slots, h);
        match slot.take() {
            Some(mut o) => {
                let loaded = o.try_load_font(path);
                *slot = Some(o);
                Ok(loaded)
            },
            None => {
                proof {
                    assert(self.slots_view() =~= old(self).slots_view());
                }
                Err(RenderError::InvalidHandle)
            },
        }
    }

    /// Loads the valid font files found under a directory, scanning
    /// recursively, best-effort, into the object behind a live handle;
    /// directory and quality modes are untouched and the catalog only
    /// ever grows. An invalid handle yields `InvalidHandle` and changes
    /// nothing.
    pub fn load_fonts_dir(&mut self, h: usize, path: &str) -> (r: Result<(), RenderError>)
        ensures
            old(self).valid_handle(h) ==> r is Ok && final(self).valid_handle(h) && final(self).slots_view().len() == old(self).slots_view().len() && same_but_fonts(
                old(self).options_at(h),
                final(self).options_at(h),
            ) && db_len(final(self).options_at(h).fontdb) >= db_len(
                old(self).options_at(h).fontdb,
            ) && (forall|i: int|
                0 <= i < old(self).slots_view().len() && i != h as int ==> final(self).slots_view()[i] == old(self).slots_view()[i]),
            !old(self).valid_handle(h) ==> final(self).slots_view() == old(self).slots_view() && (
            r matches Err(e) && e is InvalidHandle),
    {
        if h >= self.slots.len() {
            return Err(RenderError::InvalidHandle);
        }
        let slot = slot_mut(&mut self.slots, h);
        match slot.take() {
            Some(mut o) => {
                o.load_fonts_dir(path);
                *slot = Some(o);
                Ok(())
            },
            None => {
                proof {
                    assert(self.slots_view() =~= old(self).slots_view());
                }
                Err(RenderError::InvalidHandle)
            },
        }
    }

    /// The number of font faces in the catalog behind a live handle.
    pub fn font_count(&self, h: usize) -> (r: Result<usize, RenderError>)
        ensures
            self.valid_handle(h) ==> (r matches Ok(n) && n as nat == crate::engine::db_len(
                self.options_at(h).fontdb,
            )),
            !self.valid_handle(h) ==> (r matches Err(e) && e is InvalidHandle),
    {
        if h >= self.slots.len() {
            return Err(RenderError::InvalidHandle);
        }
        match &self.slots[h] {
            Some(o) => Ok(o.font_count()),
            None => Err(RenderError::InvalidHandle),
        }
    }

    /// An independent snapshot of the configuration behind a live handle,
    /// equal to it field for field: a caller can render from the snapshot
    /// while the registry is free for other calls. An invalid handle
    /// yields `InvalidHandle`.
    pub fn snapshot(&self, h: usize) -> (r: Result<RenderOptions, RenderError>)
        ensures
            self.valid_handle(h) ==> (r matches Ok(o) && o.resources_dir@ == self.options_at(
                h,
            ).resources_dir@ && o.fontdb == self.options_at(h).fontdb && o.shape_rendering
                == self.options_at(h).shape_rendering && o.text_rendering
                == self.options_at(h).text_rendering && o.image_rendering == self.options_at(
                h,
            ).image_rendering),
            !self.valid_handle(h) ==> (r matches Err(e) && e is InvalidHandle),
    {
        if h >= self.slots.len() {
            return Err(RenderError::InvalidHandle);
        }
        match &self.slots[h] {
            Some(o) => Ok(o.get_options()),
            None => Err(RenderError::InvalidHandle),
        }
    }

    /// Renders a document with the configuration behind a live handle.
    /// The registry is read, never written: rendering cannot change any
    /// configuration. An invalid handle yields `InvalidHandle`; every
    /// other outcome is the pipeline's, and for a live handle the result
    /// is a parse error exactly when the document parser rejects the
    /// text.
    pub fn render(&self, h: usize, xmldata: &str, scale_bits: u32, render_type: RenderType) -> (r:
        Result<Vec<u8>, RenderError>)
        ensures
            self.valid_handle(h) ==> render_post(r, render_type),
            self.valid_handle(h) ==> ((!svg_text_parses(xmldata@)) <==> (r matches Err(e) && e
                is Parse)),
            !self.valid_handle(h) ==> (r matches Err(e) && e is InvalidHandle),
    {
        if h >= self.slots.len() {
            return Err(RenderError::InvalidHandle);
        }
        match &self.slots[h] {
            Some(o) => render(xmldata, o, scale_bits, render_type),
            None => Err(RenderError::InvalidHandle),
        }
    }
}

/// A successful destroy leaves the registry in a state whose slot for
/// the handle is empty, so the handle is invalid from then on — and
/// every registry operation's own contract says that an invalid handle
/// yields `InvalidHandle` and leaves every slot unchanged. Together:
/// a destroyed handle can never again reach or alter an options object.
pub proof fn lemma_destroyed_handle_stays_invalid(before: Registry, after: Registry, h: usize)
    requires
        (h as int) < before.slots_view().len(),
        after.slots_view() == before.slots_view().update(h as int, None::<RenderOptions>),
    ensures
        !after.valid_handle(h),
{
}

} // verus!
