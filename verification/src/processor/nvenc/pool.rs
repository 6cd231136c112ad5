//! What the encoder works on: textures with the events and output buffers that go with them, and the
//! pool in which they are kept to be used again.
//!
//! Pointers and handles of the driver are plain numbers here. Whoever gets a resource back from one
//! of these functions, and does not hand it on, has to release it.
use std::time::Instant;
use vstd::prelude::*;
use crate::errors::{fails_with, into_err, status_error, ErrorView, RhinoError, RhinoResult};
use crate::processor::nvenc::types::{BufferFormat, NvencColor};
use crate::text::joined_text;
use crate::texture::{create_texture, plain_texture, Bind, TextureRequest};
use crate::{ColorFormat, Resolution, Texture, TextureDesc};

verus! {

/// What a texture is registered with.
#[derive(Clone, Copy, Debug, PartialEq, Eq, Structural)]
pub struct RegisterRequest {
    pub height: u32,
    pub width: u32,
    pub buffer_format: BufferFormat,
}

/// A texture that the encoder knows.
#[derive(Debug)]
pub struct NvRegisteredResource<H> {
    pub reg_resource: u64,
    pub res: Texture<H>,
}

impl<H> NvRegisteredResource<H> {
    /// The request for the registration of a texture. There is none for `Y410`.
    pub fn register_resource(tex: &Texture<H>) -> (r: RegisterRequest)
        requires
            tex.desc.format != ColorFormat::Y410,
        ensures
            r.height == tex.desc.height,
            r.width == tex.desc.width,
            r.buffer_format == NvencColor::for_format(tex.desc.format)->0.driver_name(),
    {
        RegisterRequest {
            height: tex.desc.height,
            width: tex.desc.width,
            buffer_format: NvencColor::from(tex.desc.format).into(),
        }
    }

    /// Takes what the driver replied to the registration of a texture. A texture that was not
    /// registered comes back.
    pub fn new(tex: Texture<H>, status: i32, registered: u64) -> (r: Result<
        Self,
        (RhinoError, Texture<H>),
    >)
        ensures
            status == 0 ==> r is Ok && r->Ok_0 == (NvRegisteredResource {
                reg_resource: registered,
                res: tex,
            }),
            status != 0 ==> r is Err && r->Err_0.0@ == status_error(status) && r->Err_0.1 == tex,
    {
        match into_err(status) {
            Ok(_) => Ok(NvRegisteredResource { reg_resource: registered, res: tex }),
            Err(e) => Err((e, tex)),
        }
    }
}

/// An event that the encoder sets when it is done.
#[derive(Clone, Copy, Debug, PartialEq, Eq, Structural)]
pub struct NvAsyncEvent {
    pub event: u64,
}

impl NvAsyncEvent {
    /// The event that was made, or the error whose description was returned.
    pub fn created(handle: Result<u64, String>) -> (r: RhinoResult<u64>)
        ensures
            match handle {
                Ok(h) => r is Ok && r->Ok_0 == h,
                Err(text) => fails_with(r, ErrorView::Unexpected(text@)),
            },
    {
        match handle {
            Ok(h) => Ok(h),
            Err(text) => Err(RhinoError::Unexpected(text)),
        }
    }

    /// Takes what the driver replied to the registration of an event.
    pub fn new(event: u64, status: i32) -> (r: RhinoResult<Self>)
        ensures
            status == 0 ==> r is Ok && r->Ok_0 == (NvAsyncEvent { event }),
            status != 0 ==> fails_with(r, status_error(status)),
    {
        match into_err(status) {
            Ok(_) => Ok(NvAsyncEvent { event }),
            Err(e) => Err(e),
        }
    }

    /// The handle of the event.
    pub fn handle(&self) -> (r: u64)
        ensures
            r == self.event,
    {
        self.event
    }
}

/// A buffer that the encoder writes to.
#[derive(Clone, Copy, Debug, PartialEq, Eq, Structural)]
pub struct NvBitstreamBuffer {
    pub buffer_ptr: u64,
}

impl NvBitstreamBuffer {
    /// Takes what the driver replied to the request for a buffer.
    pub fn new(status: i32, buffer: u64) -> (r: RhinoResult<Self>)
        ensures
            status == 0 ==> r is Ok && r->Ok_0 == (NvBitstreamBuffer { buffer_ptr: buffer }),
            status != 0 ==> fails_with(r, status_error(status)),
    {
        match into_err(status) {
            Ok(_) => Ok(NvBitstreamBuffer { buffer_ptr: buffer }),
            Err(e) => Err(e),
        }
    }

    /// The pointer of the buffer.
    pub fn buffer_ptr(&self) -> (r: u64)
        ensures
            r == self.buffer_ptr,
    {
        self.buffer_ptr
    }
}

/// A texture with its event and its output buffer.
#[derive(Debug)]
pub struct NvResEventGroup<H> {
    pub resource: NvRegisteredResource<H>,
    pub event: NvAsyncEvent,
    pub buffer: NvBitstreamBuffer,
}

impl<H> NvResEventGroup<H> {
    /// The three as one.
    pub fn new(res: NvRegisteredResource<H>, ev: NvAsyncEvent, buf: NvBitstreamBuffer) -> (r: Self)
        ensures
            r.resource == res,
            r.event == ev,
            r.buffer == buf,
    {
        NvResEventGroup { resource: res, event: ev, buffer: buf }
    }

    /// What the texture of the group describes.
    pub open spec fn desc(self) -> TextureDesc {
        self.resource.res.desc
    }
}

/// A group on its way through the encoder. It is empty once the group was taken out.
#[derive(Debug)]
pub struct NvQueueItem<H> {
    pub item: Option<NvResEventGroup<H>>,
    pub start_time: Instant,
}

impl<H> NvQueueItem<H> {
    /// A group that starts now.
    pub fn new(item: NvResEventGroup<H>) -> (r: Self)
        ensures
            r.item == Some(item),
    {
        NvQueueItem { item: Some(item), start_time: Instant::now() }
    }

    /// There is a group in the item, of a texture that is described so.
    pub open spec fn holds(self, desc: TextureDesc) -> bool {
        self.item is Some && self.item->0.desc() == desc
    }

    fn get_item(&self) -> (r: &NvResEventGroup<H>)
        requires
            self.item is Some,
        ensures
            *r == self.item->0,
    {
        self.item.as_ref().unwrap()
    }

    /// The event of the group.
    pub fn get_event(&self) -> (r: &NvAsyncEvent)
        requires
            self.item is Some,
        ensures
            *r == self.item->0.event,
    {
        &self.get_item().event
    }

    /// The texture of the group.
    pub fn get_resource(&self) -> (r: &NvRegisteredResource<H>)
        requires
            self.item is Some,
        ensures
            *r == self.item->0.resource,
    {
        &self.get_item().resource
    }

    /// The output buffer of the group.
    pub fn get_bitstream_buffer(&self) -> (r: &NvBitstreamBuffer)
        requires
            self.item is Some,
        ensures
            *r == self.item->0.buffer,
    {
        &self.get_item().buffer
    }

    /// The output buffer of the group, to be changed. All else stays.
    pub fn get_bitstream_buffer_mut(&mut self) -> (r: &mut NvBitstreamBuffer)
        requires
            old(self).item is Some,
        ensures
            *r == old(self).item->0.buffer,
            *final(self) == (NvQueueItem {
                item: Some(NvResEventGroup { buffer: *final(r), ..old(self).item->0 }),
                ..*old(self)
            }),
    {
        &mut self.item.as_mut().unwrap().buffer
    }

    /// The texture that the encoder has to map before it can read the group.
    pub fn map_resource(&self) -> (r: u64)
        requires
            self.item is Some,
        ensures
            r == self.item->0.resource.reg_resource,
    {
        self.get_item().resource.reg_resource
    }

    /// Lets go of the item. What goes back to the pool comes out, if the pool is still there, and the
    /// item is then empty.
    pub fn let_go(&mut self, pool_alive: bool) -> (r: Option<NvQueueItem<H>>)
        ensures
            old(self).item is Some && pool_alive ==> {
                &&& r is Some
                &&& r->0 == *old(self)
                &&& final(self).item is None
                &&& final(self).start_time == old(self).start_time
            },
            old(self).item is None || !pool_alive ==> r is None && *final(self) == *old(self),
    {
        if self.item.is_some() && pool_alive {
            let mut item = None;
            std::mem::swap(&mut item, &mut self.item);
            Some(NvQueueItem { item, start_time: self.start_time })
        } else {
            None
        }
    }
}

/// A group whose texture the encoder can read.
#[derive(Debug)]
pub struct NvMappedResource<H> {
    pub item: NvQueueItem<H>,
    pub mapped_res: u64,
}

impl<H> NvMappedResource<H> {
    /// Takes what the driver replied to the mapping of a texture. An item that was not mapped comes
    /// back.
    pub fn new(item: NvQueueItem<H>, status: i32, mapped: u64) -> (r: Result<
        Self,
        (RhinoError, NvQueueItem<H>),
    >)
        ensures
            status == 0 ==> r is Ok && r->Ok_0 == (NvMappedResource { item, mapped_res: mapped }),
            status != 0 ==> r is Err && r->Err_0.0@ == status_error(status) && r->Err_0.1 == item,
    {
        match into_err(status) {
            Ok(_) => Ok(NvMappedResource { item, mapped_res: mapped }),
            Err(e) => Err((e, item)),
        }
    }

    /// The event of the group.
    pub fn get_event(&self) -> (r: &NvAsyncEvent)
        requires
            self.item.item is Some,
        ensures
            *r == self.item.item->0.event,
    {
        self.item.get_event()
    }

    /// The output buffer of the group.
    pub fn get_bitstream_buffer(&self) -> (r: &NvBitstreamBuffer)
        requires
            self.item.item is Some,
        ensures
            *r == self.item.item->0.buffer,
    {
        self.item.get_bitstream_buffer()
    }
}

/// Taking an item of the items `pre` gives `r` and leaves `post`.
pub open spec fn item_taken<H>(
    pre: Seq<NvQueueItem<H>>,
    r: Option<NvQueueItem<H>>,
    post: Seq<NvQueueItem<H>>,
) -> bool {
    if pre.len() > 0 {
        r == Some(pre.last()) && post == pre.drop_last()
    } else {
        r is None && post == pre
    }
}

/// Giving `item` back to the items `pre` of textures that are described so leaves `post`, and gives out
/// `r`.
pub open spec fn item_put_back<H>(
    pre: Seq<NvQueueItem<H>>,
    desc: TextureDesc,
    item: NvQueueItem<H>,
    r: Option<NvResEventGroup<H>>,
    post: Seq<NvQueueItem<H>>,
) -> bool {
    if item.holds(desc) {
        r is None && post == pre.push(item)
    } else {
        r == item.item && post == pre
    }
}

/// Items `pre` of textures that are described as `old_desc` become those of a pool for `new_desc`: `post` stay
/// and `released` come out.
pub open spec fn kind_changed<H>(
    pre: Seq<NvQueueItem<H>>,
    old_desc: TextureDesc,
    new_desc: TextureDesc,
    post: Seq<NvQueueItem<H>>,
    released: Seq<NvQueueItem<H>>,
) -> bool {
    if old_desc == new_desc {
        post == pre && released == Seq::<NvQueueItem<H>>::empty()
    } else {
        post == Seq::<NvQueueItem<H>>::empty() && released == pre
    }
}

/// Groups that can be used again, all of textures that are described alike.
#[derive(Debug)]
pub struct NvencPool<H> {
    available: Vec<NvQueueItem<H>>,
    desc: TextureDesc,
}

impl<H> NvencPool<H> {
    /// The items that can be used again. The one that came back last is used first.
    pub closed spec fn available(self) -> Seq<NvQueueItem<H>> {
        self.available@
    }

    /// What the textures of the pool describe.
    pub closed spec fn desc(self) -> TextureDesc {
        self.desc
    }

    /// Each item holds a group of a texture as the pool describes it.
    pub open spec fn well_formed(self) -> bool {
        forall|i: int|
            0 <= i < self.available().len() ==> (#[trigger] self.available()[i]).holds(self.desc())
    }

    /// A pool without items, for textures without a size.
    pub fn new() -> (r: Self)
        ensures
            r.well_formed(),
            r.available() == Seq::<NvQueueItem<H>>::empty(),
            r.desc() == (TextureDesc { height: 0, width: 0, format: ColorFormat::Unknown }),
    {
        NvencPool {
            available: Vec::new(),
            desc: TextureDesc { height: 0, width: 0, format: ColorFormat::Unknown },
        }
    }

    /// Changes what the textures of the pool describe. The items of another kind come out.
    pub fn configure(&mut self, new_desc: &TextureDesc) -> (r: Vec<NvQueueItem<H>>)
        requires
            old(self).well_formed(),
        ensures
            final(self).well_formed(),
            final(self).desc() == *new_desc,
            old(self).desc() == *new_desc ==> *final(self) == *old(self) && r@ == Seq::<
                NvQueueItem<H>,
            >::empty(),
            old(self).desc() != *new_desc ==> final(self).available() == Seq::<
                NvQueueItem<H>,
            >::empty() && r@ == old(self).available(),
            kind_changed(
                old(self).available(),
                old(self).desc(),
                *new_desc,
                final(self).available(),
                r@,
            ),
    {
        let mut released: Vec<NvQueueItem<H>> = Vec::new();
        if self.desc == *new_desc {
            return released;
        }
        self.desc = *new_desc;
        std::mem::swap(&mut released, &mut self.available);
        released
    }

    /// The item that came back last, if there is one.
    pub fn get_item(&mut self) -> (r: Option<NvQueueItem<H>>)
        requires
            old(self).well_formed(),
        ensures
            final(self).well_formed(),
            final(self).desc() == old(self).desc(),
            old(self).available().len() == 0 ==> r is None && final(self).available() == old(
                self,
            ).available(),
            old(self).available().len() > 0 ==> {
                &&& r == Some(old(self).available().last())
                &&& r->0.holds(old(self).desc())
                &&& final(self).available() == old(self).available().drop_last()
            },
            item_taken(old(self).available(), r, final(self).available()),
    {
        proof {
            if self.available().len() > 0 {
                assert(self.available()[self.available().len() - 1].holds(self.desc()));
            }
        }
        self.available.pop()
    }

    /// What the textures of the pool describe.
    pub fn get_desc(&self) -> (r: TextureDesc)
        ensures
            r == self.desc(),
    {
        self.desc
    }

    /// The request for the texture of a new item.
    pub fn new_item(desc: &TextureDesc) -> (r: TextureRequest)
        ensures
            r == plain_texture(
                desc.format,
                Resolution { width: desc.width, height: desc.height },
                Bind::RenderTarget,
            ),
    {
        create_texture(
            desc.format,
            Resolution { width: desc.width, height: desc.height },
            Bind::RenderTarget,
        )
    }

    /// The texture of a new item, or the error whose description the device returned.
    pub fn item_texture(tex: Result<Texture<H>, String>) -> (r: RhinoResult<Texture<H>>)
        ensures
            match tex {
                Ok(t) => r is Ok && r->Ok_0 == t,
                Err(text) => fails_with(
                    r,
                    ErrorView::Unexpected("failed to create texture. "@ + text@),
                ),
            },
    {
        match tex {
            Ok(t) => Ok(t),
            Err(text) => Err(
                RhinoError::Unexpected(joined_text("failed to create texture. ", text.as_str())),
            ),
        }
    }

    /// Takes an item back. Its group comes out where the pool is for textures of another kind by now.
    pub fn put_back(&mut self, item: NvQueueItem<H>) -> (r: Option<NvResEventGroup<H>>)
        requires
            old(self).well_formed(),
            item.item is Some,
        ensures
            final(self).well_formed(),
            final(self).desc() == old(self).desc(),
            item.holds(old(self).desc()) ==> r is None && final(self).available() == old(
                self,
            ).available().push(item),
            !item.holds(old(self).desc()) ==> r == item.item && final(self).available() == old(
                self,
            ).available(),
            item_put_back(
                old(self).available(),
                old(self).desc(),
                item,
                r,
                final(self).available(),
            ),
    {
        if self.desc != item.get_item().resource.res.desc {
            item.item
        } else {
            self.available.push(item);
            proof {
                assert forall|i: int| 0 <= i < self.available().len() implies (
                #[trigger] self.available()[i]).holds(self.desc()) by {
                    if i < old(self).available().len() {
                        assert(old(self).available()[i].holds(old(self).desc()));
                    }
                }
            }
            None
        }
    }
}

/// An item is of the kind that is described where it has a group, and the texture of the group has the
/// width, the height and the pixel layout of the description.
pub proof fn law_item_is_of_the_kind<H>(item: NvQueueItem<H>, desc: TextureDesc)
    ensures
        item.holds(desc) <==> (item.item matches Some(group) && {
            let tex = group.resource.res.desc;
            tex.width == desc.width && tex.height == desc.height && tex.format == desc.format
        }),
{
}

/// Every item of a pool has a group, and its texture has the width, the height and the pixel layout that
/// the pool describes.
pub proof fn law_pool_is_of_one_kind<H>(pool: NvencPool<H>, i: int)
    requires
        pool.well_formed(),
        0 <= i < pool.available().len(),
    ensures
        pool.available()[i].item is Some,
        pool.available()[i].item->0.resource.res.desc.width == pool.desc().width,
        pool.available()[i].item->0.resource.res.desc.height == pool.desc().height,
        pool.available()[i].item->0.resource.res.desc.format == pool.desc().format,
{
    assert(pool.available()[i].holds(pool.desc()));
}

/// An item that comes back to a pool of its kind is the next one to be used, and the pool is then as it
/// was.
pub proof fn law_put_back_is_next<H>(available: Seq<NvQueueItem<H>>, item: NvQueueItem<H>)
    ensures
        available.push(item).last() == item,
        available.push(item).drop_last() == available,
{
    assert(available.push(item).drop_last() == available);
}

/// Giving an item back to a pool of its kind and taking one gives that item, and undoes the first.
pub proof fn law_taking_undoes_giving_back<H>(
    available: Seq<NvQueueItem<H>>,
    desc: TextureDesc,
    item: NvQueueItem<H>,
    refused: Option<NvResEventGroup<H>>,
    between: Seq<NvQueueItem<H>>,
    next: Option<NvQueueItem<H>>,
    after: Seq<NvQueueItem<H>>,
)
    requires
        item.holds(desc),
        item_put_back(available, desc, item, refused, between),
        item_taken(between, next, after),
    ensures
        refused is None,
        next == Some(item),
        after == available,
{
    assert(available.push(item).drop_last() == available);
}

/// An item comes back to its pool or its group comes out to be released, never both and never neither.
pub proof fn law_no_item_is_lost<H>(
    available: Seq<NvQueueItem<H>>,
    desc: TextureDesc,
    item: NvQueueItem<H>,
    refused: Option<NvResEventGroup<H>>,
    after: Seq<NvQueueItem<H>>,
)
    requires
        item.item is Some,
        item_put_back(available, desc, item, refused, after),
    ensures
        refused is Some <==> !item.holds(desc),
        refused is Some <==> after == available,
        refused is None <==> after.len() == available.len() + 1,
        refused is Some ==> refused == item.item,
{
    if refused is None {
        assert(after.len() == available.len() + 1);
    }
}

/// A pool keeps its items if and only if it goes on with their width, their height and their pixel layout;
/// otherwise all come out. None is lost.
pub proof fn law_items_of_another_kind_come_out<H>(
    pre: Seq<NvQueueItem<H>>,
    old_desc: TextureDesc,
    new_desc: TextureDesc,
    post: Seq<NvQueueItem<H>>,
    released: Seq<NvQueueItem<H>>,
)
    requires
        kind_changed(pre, old_desc, new_desc, post, released),
    ensures
        post + released == pre,
        post.len() == 0 || released.len() == 0,
        pre.len() > 0 ==> (post == pre <==> old_desc.width == new_desc.width && old_desc.height
            == new_desc.height && old_desc.format == new_desc.format),
{
    assert(post + released == pre);
    if post.len() == 0 && pre.len() > 0 {
        assert(post.len() != pre.len());
    }
}

} // verus!
