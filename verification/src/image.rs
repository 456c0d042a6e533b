//! The resource handle: the record of one native image, and the calls its
//! transform operations make.

use vstd::prelude::*;
use vstd::utf8::encode_utf8;
use crate::descriptor::{
    describe, CallDescriptor, DescriptorModel, OptionalParameter, Positional, PositionalModel,
    SlotModel,
};
use crate::bridge::AnchoredBuffer;
use crate::error::VipsError;
use crate::lifecycle::{next_state, HandleEvent, HandleState};
use crate::options::{
    band_format_code, extend_code, intent_code, interesting_code, size_code, VipsBandFormat,
    VipsEmbedOptions, VipsThumbnailOptions,
};
use crate::text::{
    is_first_nul, lemma_plain_name_crosses, name_bytes, name_text, nul_free, CText,
};
use crate::value::{as_signed, signed_reading, ArgValue, ValueModel};

verus! {

/// What the owner of a handle owes the native side when the handle is let go.
#[derive(Clone, Copy, Debug, PartialEq, Eq, Structural)]
pub enum Release {
    /// Nothing: the handle holds no native image.
    Nothing,
    /// Drop the one reference to the native image at `address`. If
    /// `reclaims_buffer`, the image anchors a host buffer, which its
    /// destruction reclaims.
    Unref { address: usize, reclaims_buffer: bool },
}

/// What a handle holds, as mathematics.
pub struct HandleModel {
    pub address: usize,
    pub state: HandleState,
    /// Whether a host buffer has been given over to the native image.
    pub anchored: bool,
}

/// The handle of one native image.
#[derive(Debug)]
pub struct VipsImage {
    c: usize,
    state: HandleState,
    anchored: bool,
}

impl View for VipsImage {
    type V = HandleModel;

    closed spec fn view(&self) -> HandleModel {
        HandleModel { address: self.c, state: self.state, anchored: self.anchored }
    }
}

/// What holds of every handle: it is live or released, and it has an address
/// exactly while it is live.
pub open spec fn handle_valid(h: HandleModel) -> bool {
    &&& h.state is Live || h.state is Released
    &&& h.state is Live <==> h.address != 0
    &&& h.anchored ==> h.state is Live
}

/// The handle after a release, and what the release owes.
pub open spec fn released(h: HandleModel) -> (HandleModel, Release) {
    if h.state is Live {
        (
            HandleModel {
                address: 0,
                state: next_state(h.state, HandleEvent::Dropped),
                anchored: false,
            },
            Release::Unref { address: h.address, reclaims_buffer: h.anchored },
        )
    } else {
        (h, Release::Nothing)
    }
}

/// How a pixel buffer is laid out, in the numbers the native side takes.
#[derive(Clone, Copy, Debug, PartialEq, Eq, Structural)]
pub struct MemoryLayout {
    /// The size of the buffer in bytes.
    pub len: usize,
    pub width: i32,
    pub height: i32,
    pub bands: i32,
    /// The number of the band format.
    pub format: i32,
}

/// The layout of a buffer of `len` bytes that holds an image of `width` by
/// `height` pixels with `bands` bands of `format`.
pub open spec fn memory_layout(
    len: nat,
    width: u32,
    height: u32,
    bands: u8,
    format: VipsBandFormat,
) -> MemoryLayout {
    MemoryLayout {
        len: len as usize,
        width: signed_reading(width),
        height: signed_reading(height),
        bands: bands as i32,
        format: band_format_code(format),
    }
}

impl MemoryLayout {
    /// The layout of a buffer of `len` bytes.
    pub fn new(len: usize, width: u32, height: u32, bands: u8, format: VipsBandFormat) -> (layout:
        MemoryLayout)
        ensures
            layout == memory_layout(len as nat, width, height, bands, format),
    {
        MemoryLayout {
            len,
            width: as_signed(width),
            height: as_signed(height),
            bands: bands as i32,
            format: format.code(),
        }
    }
}

/// A pixel buffer on its way to the native side, with its layout.
#[derive(Debug)]
pub struct MemoryRequest {
    pub pixels: Vec<u8>,
    pub layout: MemoryLayout,
}

/// Whether a native call failed: it left no image, or its status is not
/// zero. The error text is to be fetched exactly then, and at once.
pub fn failed(ptr: usize, ret: i32) -> (failure: bool)
    ensures
        failure == (ptr == 0 || ret != 0),
{
    ptr == 0 || ret != 0
}

/// The handle for what a native constructor returned. A null address is a
/// failure, reported with `error_text`; any other address becomes a live
/// handle.
pub fn result(ptr: usize, error_text: String) -> (r: Result<VipsImage, VipsError>)
    ensures
        ptr != 0 ==> (r matches Ok(h) && h@ == HandleModel {
            address: ptr,
            state: HandleState::Live,
            anchored: false,
        }),
        ptr == 0 ==> (r matches Err(VipsError::Native { message }) && message@ == error_text@),
{
    result_with_ret(ptr, 0, error_text)
}

/// The handle for what a native operation returned: the address it left in
/// the output slot, and its status. A status other than zero is a failure,
/// and so is a null address; either is reported with `error_text`, and no
/// handle is made.
pub fn result_with_ret(ptr: usize, ret: i32, error_text: String) -> (r: Result<
    VipsImage,
    VipsError,
>)
    ensures
        ptr != 0 && ret == 0 ==> (r matches Ok(h) && h@ == HandleModel {
            address: ptr,
            state: HandleState::Live,
            anchored: false,
        }),
        ptr == 0 || ret != 0 ==> (r matches Err(VipsError::Native { message }) && message@
            == error_text@),
{
    let event = if failed(ptr, ret) {
        HandleEvent::ConstructionFailed
    } else {
        HandleEvent::Constructed
    };
    match HandleState::Uninitialized.next(event) {
        HandleState::Live => Ok(VipsImage { c: ptr, state: HandleState::Live, anchored: false }),
        _ => Err(VipsError::Native { message: error_text }),
    }
}

/// The outcome of a native operation that makes no image: status zero is
/// success, and any other status is a failure reported with `error_text`.
pub fn result_status(ret: i32, error_text: String) -> (r: Result<(), VipsError>)
    ensures
        ret == 0 ==> r is Ok,
        ret != 0 ==> (r matches Err(VipsError::Native { message }) && message@ == error_text@),
{
    if ret == 0 {
        Ok(())
    } else {
        Err(VipsError::Native { message: error_text })
    }
}

/// The outcome of a native operation that writes into a buffer of its own
/// making: the address of that buffer, and the status. A status other than
/// zero is a failure, and so is a null address; either is reported with
/// `error_text`. Otherwise the buffer at the address is there to be read.
pub fn result_buffer(ptr: usize, ret: i32, error_text: String) -> (r: Result<usize, VipsError>)
    ensures
        ptr != 0 && ret == 0 ==> r == Ok::<usize, VipsError>(ptr),
        ptr == 0 || ret != 0 ==> (r matches Err(VipsError::Native { message }) && message@
            == error_text@),
{
    if failed(ptr, ret) {
        Err(VipsError::Native { message: error_text })
    } else {
        Ok(ptr)
    }
}

/// The outcome of a native operation that changes an image in place: status
/// zero is success, status -1 a failure reported with `error_text`, and any
/// other status a failure nothing is known of.
pub fn result_draw(ret: i32, error_text: String) -> (r: Result<(), VipsError>)
    ensures
        ret == 0 ==> r is Ok,
        ret == -1 ==> (r matches Err(VipsError::Native { message }) && message@ == error_text@),
        ret != 0 && ret != -1 ==> r matches Err(VipsError::Unknown),
{
    if ret == 0 {
        Ok(())
    } else if ret == -1 {
        Err(VipsError::Native { message: error_text })
    } else {
        Err(VipsError::Unknown)
    }
}

/// The positional arguments of a thumbnail: the image, the output slot and
/// the target width.
pub open spec fn thumbnail_positional(address: usize, width: u32) -> Seq<PositionalModel> {
    seq![
        PositionalModel::Value(ValueModel::Pointer(address)),
        PositionalModel::OutputSlot,
        PositionalModel::Value(ValueModel::Int32(signed_reading(width))),
    ]
}

/// The positional arguments of an operation on a rectangle: the image, the
/// output slot, and the rectangle's corner and size.
pub open spec fn area_positional(address: usize, x: u32, y: u32, width: u32, height: u32) -> Seq<
    PositionalModel,
> {
    seq![
        PositionalModel::Value(ValueModel::Pointer(address)),
        PositionalModel::OutputSlot,
        PositionalModel::Value(ValueModel::Int32(signed_reading(x))),
        PositionalModel::Value(ValueModel::Int32(signed_reading(y))),
        PositionalModel::Value(ValueModel::Int32(signed_reading(width))),
        PositionalModel::Value(ValueModel::Int32(signed_reading(height))),
    ]
}

/// The bytes of a profile name, if one is given.
pub open spec fn profile_bytes(profile: Option<String>) -> Option<Seq<u8>> {
    match profile {
        Some(p) => Some(encode_utf8(p@)),
        None => None,
    }
}

/// A profile name can cross to the native side: it is absent, or holds no
/// zero byte.
pub open spec fn profile_crosses(profile: Option<String>) -> bool {
    profile matches Some(p) ==> nul_free(encode_utf8(p@))
}

/// The optional parameters of a thumbnail, in their declared order.
pub open spec fn thumbnail_slots(options: VipsThumbnailOptions) -> Seq<SlotModel> {
    seq![
        SlotModel {
            name: name_bytes("height"),
            value: match options.height {
                Some(h) => Some(ValueModel::Int32(signed_reading(h))),
                None => None,
            },
        },
        SlotModel {
            name: name_bytes("size"),
            value: match options.size {
                Some(s) => Some(ValueModel::Enum(size_code(s))),
                None => None,
            },
        },
        SlotModel {
            name: name_bytes("auto_rotate"),
            value: match options.auto_rotate {
                Some(b) => Some(ValueModel::Bool(b)),
                None => None,
            },
        },
        SlotModel {
            name: name_bytes("crop"),
            value: match options.crop {
                Some(c) => Some(ValueModel::Enum(interesting_code(c))),
                None => None,
            },
        },
        SlotModel {
            name: name_bytes("linear"),
            value: match options.linear {
                Some(b) => Some(ValueModel::Bool(b)),
                None => None,
            },
        },
        SlotModel {
            name: name_bytes("import_profile"),
            value: match options.import_profile {
                Some(p) => Some(ValueModel::Text(encode_utf8(p@))),
                None => None,
            },
        },
        SlotModel {
            name: name_bytes("export_profile"),
            value: match options.export_profile {
                Some(p) => Some(ValueModel::Text(encode_utf8(p@))),
                None => None,
            },
        },
        SlotModel {
            name: name_bytes("intent"),
            value: match options.intent {
                Some(i) => Some(ValueModel::Enum(intent_code(i))),
                None => None,
            },
        },
    ]
}

/// The optional parameters of an embedding, in their declared order.
pub open spec fn embed_slots(options: VipsEmbedOptions) -> Seq<SlotModel> {
    seq![
        SlotModel {
            name: name_bytes("extend"),
            value: match options.extend {
                Some(e) => Some(ValueModel::Enum(extend_code(e))),
                None => None,
            },
        },
        SlotModel {
            name: name_bytes("background"),
            value: match options.background {
                Some(a) => Some(ValueModel::Pointer(a.address)),
                None => None,
            },
        },
    ]
}

/// Makes a name out of a profile, if one is given.
fn profile_text(profile: &Option<String>) -> (r: Result<Option<CText>, VipsError>)
    ensures
        profile_crosses(*profile) ==> (r matches Ok(t) && match t {
            Some(text) => profile_bytes(*profile) == Some(text@),
            None => *profile is None,
        }),
        !profile_crosses(*profile) ==> (r matches Err(VipsError::InteriorNul { position })
            && is_first_nul(profile_bytes(*profile)->0, position as int)),
{
    match profile {
        Some(p) => match CText::from_str(p.as_str()) {
            Ok(text) => Ok(Some(text)),
            Err(e) => Err(e),
        },
        None => Ok(None),
    }
}

fn text_value(text: Option<CText>) -> (value: Option<ArgValue>)
    ensures
        match text {
            Some(t) => value matches Some(v) && v@ == ValueModel::Text(t@),
            None => value is None,
        },
{
    match text {
        Some(t) => Some(ArgValue::Text(t)),
        None => None,
    }
}

impl VipsImage {
    #[verifier::type_invariant]
    spec fn valid(self) -> bool {
        handle_valid(self@)
    }

    /// The address of the native image; zero once the handle is released.
    pub fn c(&self) -> (address: usize)
        ensures
            address == self@.address,
            handle_valid(self@),
    {
        proof {
            use_type_invariant(self);
        }
        self.c
    }

    /// Where the handle stands in its life.
    pub fn state(&self) -> (state: HandleState)
        ensures
            state == self@.state,
            handle_valid(self@),
    {
        proof {
            use_type_invariant(self);
        }
        self.state
    }

    /// Whether the handle owns a native image.
    pub fn is_live(&self) -> (live: bool)
        ensures
            live == (self@.state is Live),
    {
        match self.state {
            HandleState::Live => true,
            _ => false,
        }
    }

    /// Whether a host buffer has been given over to the native image.
    pub fn is_anchored(&self) -> (anchored: bool)
        ensures
            anchored == self@.anchored,
    {
        self.anchored
    }

    /// Lets go of the handle. The first release of a live handle owes the
    /// native side one unref; every later one owes nothing.
    pub fn release(&mut self) -> (owed: Release)
        ensures
            (final(self)@, owed) == released(old(self)@),
            final(self)@.state is Released,
            handle_valid(final(self)@),
    {
        proof {
            use_type_invariant(&*self);
        }
        if self.is_live() {
            let owed = Release::Unref { address: self.c, reclaims_buffer: self.anchored };
            let after = self.state.next(HandleEvent::Dropped);
            *self = VipsImage { c: 0, state: after, anchored: false };
            owed
        } else {
            Release::Nothing
        }
    }

    /// Gives `buffer` over to the native image of this handle. From then on
    /// only the destruction of that image reclaims it, through the token
    /// returned here. A handle that is not live takes nothing over.
    pub fn anchor(&mut self, buffer: Vec<u8>) -> (r: Result<AnchoredBuffer, VipsError>)
        ensures
            old(self)@.state is Live ==> (r matches Ok(token) && token@ == buffer@ && final(self)@
                == HandleModel { anchored: true, ..old(self)@ }),
            !(old(self)@.state is Live) ==> (r matches Err(VipsError::Released) && final(self)@
                == old(self)@),
            handle_valid(final(self)@),
    {
        proof {
            use_type_invariant(&*self);
        }
        if self.is_live() {
            *self = VipsImage { c: self.c, state: self.state, anchored: true };
            Ok(AnchoredBuffer::new(buffer))
        } else {
            Err(VipsError::Released)
        }
    }

    /// What loading an image from a file hands to the native side: the path
    /// as text. A path with a zero byte is refused.
    pub fn from_file(path: Vec<u8>) -> (r: Result<CText, VipsError>)
        ensures
            nul_free(path@) ==> (r matches Ok(t) && t@ == path@),
            !nul_free(path@) ==> (r matches Err(VipsError::InteriorNul { position })
                && is_first_nul(path@, position as int)),
    {
        CText::new(path)
    }

    /// What wrapping a pixel buffer the host owns hands to the native side:
    /// the buffer, unchanged, and its layout.
    pub fn from_memory(
        buf: Vec<u8>,
        width: u32,
        height: u32,
        bands: u8,
        format: VipsBandFormat,
    ) -> (request: MemoryRequest)
        ensures
            request.pixels@ == buf@,
            request.layout == memory_layout(buf@.len(), width, height, bands, format),
    {
        let layout = MemoryLayout::new(buf.len(), width, height, bands, format);
        MemoryRequest { pixels: buf, layout }
    }

    /// What wrapping a pixel buffer the caller keeps hands to the native
    /// side: its layout. The buffer stays where it is.
    pub fn from_memory_reference(
        buf: &[u8],
        width: u32,
        height: u32,
        bands: u8,
        format: VipsBandFormat,
    ) -> (layout: MemoryLayout)
        ensures
            layout == memory_layout(buf@.len(), width, height, bands, format),
    {
        MemoryLayout::new(buf.len(), width, height, bands, format)
    }

    /// The call that cuts the rectangle at (`x`, `y`) of size `width` by
    /// `height` out of this image. It has no optional parameters.
    pub fn extract_area(&self, x: u32, y: u32, width: u32, height: u32) -> (r: Result<
        CallDescriptor,
        VipsError,
    >)
        ensures
            self@.state is Live ==> (r matches Ok(d) && d@ == DescriptorModel {
                arguments: describe(
                    area_positional(self@.address, x, y, width, height),
                    Seq::empty(),
                ),
                fixed: 6,
            }),
            !(self@.state is Live) ==> r matches Err(VipsError::Released),
    {
        if !self.is_live() {
            return Err(VipsError::Released);
        }
        let positional = self.area_arguments(x, y, width, height);
        let optional: Vec<OptionalParameter> = Vec::new();
        let d = CallDescriptor::build(&positional, &optional);
        assert(crate::descriptor::slot_models(optional@) =~= Seq::empty());
        Ok(d)
    }

    /// The call that places this image at (`x`, `y`) within a new image of
    /// size `width` by `height`.
    pub fn embed(&self, x: u32, y: u32, width: u32, height: u32, options: VipsEmbedOptions) -> (r:
        Result<CallDescriptor, VipsError>)
        ensures
            self@.state is Live ==> (r matches Ok(d) && d@ == DescriptorModel {
                arguments: describe(
                    area_positional(self@.address, x, y, width, height),
                    embed_slots(options),
                ),
                fixed: 6,
            }),
            !(self@.state is Live) ==> r matches Err(VipsError::Released),
    {
        if !self.is_live() {
            return Err(VipsError::Released);
        }
        let positional = self.area_arguments(x, y, width, height);
        let mut optional: Vec<OptionalParameter> = Vec::new();
        proof {
            reveal_strlit("extend");
            lemma_plain_name_crosses("extend");
            reveal_strlit("background");
            lemma_plain_name_crosses("background");
        }
        optional.push(
            OptionalParameter {
                name: name_text("extend"),
                value: match options.extend {
                    Some(e) => Some(ArgValue::Enum(e.code())),
                    None => None,
                },
            },
        );
        optional.push(
            OptionalParameter {
                name: name_text("background"),
                value: match options.background {
                    Some(a) => Some(ArgValue::Pointer(a.address)),
                    None => None,
                },
            },
        );
        let d = CallDescriptor::build(&positional, &optional);
        assert(crate::descriptor::slot_models(optional@) =~= embed_slots(options));
        Ok(d)
    }

    /// The call that makes a thumbnail of this image, `width` wide. The
    /// optional parameters come in their declared order, whatever order the
    /// caller set them in. A profile name with a zero byte cannot cross to
    /// the native side: the first such name is reported, the import profile
    /// before the export profile.
    pub fn thumbnail(&self, width: u32, options: VipsThumbnailOptions) -> (r: Result<
        CallDescriptor,
        VipsError,
    >)
        ensures
            self@.state is Live && profile_crosses(options.import_profile) && profile_crosses(
                options.export_profile,
            ) ==> (r matches Ok(d) && d@ == DescriptorModel {
                arguments: describe(
                    thumbnail_positional(self@.address, width),
                    thumbnail_slots(options),
                ),
                fixed: 3,
            }),
            !(self@.state is Live) ==> r matches Err(VipsError::Released),
            self@.state is Live && !profile_crosses(options.import_profile) ==> (r matches Err(
                VipsError::InteriorNul { position },
            ) && is_first_nul(profile_bytes(options.import_profile)->0, position as int)),
            self@.state is Live && profile_crosses(options.import_profile) && !profile_crosses(
                options.export_profile,
            ) ==> (r matches Err(VipsError::InteriorNul { position }) && is_first_nul(
                profile_bytes(options.export_profile)->0,
                position as int,
            )),
    {
        if !self.is_live() {
            return Err(VipsError::Released);
        }
        let import_profile = match profile_text(&options.import_profile) {
            Ok(t) => t,
            Err(e) => {
                return Err(e);
            },
        };
        let export_profile = match profile_text(&options.export_profile) {
            Ok(t) => t,
            Err(e) => {
                return Err(e);
            },
        };
        let mut positional: Vec<Positional> = Vec::new();
        positional.push(Positional::Value(ArgValue::Pointer(self.c)));
        positional.push(Positional::OutputSlot);
        positional.push(Positional::Value(ArgValue::Int32(as_signed(width))));
        assert(crate::descriptor::positional_models(positional@) =~= thumbnail_positional(
            self@.address,
            width,
        ));
        proof {
            reveal_strlit("height");
            lemma_plain_name_crosses("height");
            reveal_strlit("size");
            lemma_plain_name_crosses("size");
            reveal_strlit("auto_rotate");
            lemma_plain_name_crosses("auto_rotate");
            reveal_strlit("crop");
            lemma_plain_name_crosses("crop");
            reveal_strlit("linear");
            lemma_plain_name_crosses("linear");
            reveal_strlit("import_profile");
            lemma_plain_name_crosses("import_profile");
            reveal_strlit("export_profile");
            lemma_plain_name_crosses("export_profile");
            reveal_strlit("intent");
            lemma_plain_name_crosses("intent");
        }
        let mut optional: Vec<OptionalParameter> = Vec::new();
        optional.push(
            OptionalParameter {
                name: name_text("height"),
                value: match options.height {
                    Some(h) => Some(ArgValue::Int32(as_signed(h))),
                    None => None,
                },
            },
        );
        optional.push(
            OptionalParameter {
                name: name_text("size"),
                value: match options.size {
                    Some(s) => Some(ArgValue::Enum(s.code())),
                    None => None,
                },
            },
        );
        optional.push(
            OptionalParameter {
                name: name_text("auto_rotate"),
                value: match options.auto_rotate {
                    Some(b) => Some(ArgValue::Bool(b)),
                    None => None,
                },
            },
        );
        optional.push(
            OptionalParameter {
                name: name_text("crop"),
                value: match options.crop {
                    Some(c) => Some(ArgValue::Enum(c.code())),
                    None => None,
                },
            },
        );
        optional.push(
            OptionalParameter {
                name: name_text("linear"),
                value: match options.linear {
                    Some(b) => Some(ArgValue::Bool(b)),
                    None => None,
                },
            },
        );
        optional.push(
            OptionalParameter { name: name_text("import_profile"), value: text_value(import_profile) },
        );
        optional.push(
            OptionalParameter { name: name_text("export_profile"), value: text_value(export_profile) },
        );
        optional.push(
            OptionalParameter {
                name: name_text("intent"),
                value: match options.intent {
                    Some(i) => Some(ArgValue::Enum(i.code())),
                    None => None,
                },
            },
        );
        let d = CallDescriptor::build(&positional, &optional);
        assert(crate::descriptor::slot_models(optional@) =~= thumbnail_slots(options));
        Ok(d)
    }

    /// The positional arguments of an operation on a rectangle of this image.
    fn area_arguments(&self, x: u32, y: u32, width: u32, height: u32) -> (positional: Vec<
        Positional,
    >)
        ensures
            crate::descriptor::positional_models(positional@) == area_positional(
                self@.address,
                x,
                y,
                width,
                height,
            ),
    {
        let mut positional: Vec<Positional> = Vec::new();
        positional.push(Positional::Value(ArgValue::Pointer(self.c)));
        positional.push(Positional::OutputSlot);
        positional.push(Positional::Value(ArgValue::Int32(as_signed(x))));
        positional.push(Positional::Value(ArgValue::Int32(as_signed(y))));
        positional.push(Positional::Value(ArgValue::Int32(as_signed(width))));
        positional.push(Positional::Value(ArgValue::Int32(as_signed(height))));
        assert(crate::descriptor::positional_models(positional@) =~= area_positional(
            self@.address,
            x,
            y,
            width,
            height,
        ));
        positional
    }
}

/// What `n` releases in a row owe, one after the other.
pub open spec fn owed_by_releases(h: HandleModel, n: nat) -> Seq<Release>
    decreases n,
{
    if n == 0 {
        Seq::empty()
    } else {
        seq![released(h).1] + owed_by_releases(released(h).0, (n - 1) as nat)
    }
}

/// A buffer anchored on a live handle is reclaimed exactly once, however
/// often the handle is released: the first release owes the unref that
/// reclaims it, and every later release owes nothing.
pub proof fn lemma_anchored_buffer_reclaimed_once(h: HandleModel, n: nat)
    requires
        handle_valid(h),
        h.state is Live,
        n >= 1,
    ensures
        owed_by_releases(HandleModel { anchored: true, ..h }, n).len() == n,
        owed_by_releases(HandleModel { anchored: true, ..h }, n)[0] == (Release::Unref {
            address: h.address,
            reclaims_buffer: true,
        }),
        forall|i: int|
            1 <= i < n ==> #[trigger] owed_by_releases(HandleModel { anchored: true, ..h }, n)[i]
                == Release::Nothing,
{
    let anchored = HandleModel { anchored: true, ..h };
    lemma_release_owes_once(anchored, n);
}

/// Of any number of releases of a valid handle only the first can owe
/// anything, and it owes an unref exactly if the handle was live.
pub proof fn lemma_release_owes_once(h: HandleModel, n: nat)
    requires
        handle_valid(h),
    ensures
        owed_by_releases(h, n).len() == n,
        n >= 1 ==> owed_by_releases(h, n)[0] == released(h).1,
        n >= 1 ==> (owed_by_releases(h, n)[0] is Unref <==> h.state is Live),
        forall|i: int| 1 <= i < n ==> #[trigger] owed_by_releases(h, n)[i] == Release::Nothing,
    decreases n,
{
    if n >= 1 {
        let after = released(h).0;
        lemma_release_owes_once(after, (n - 1) as nat);
        let rest = owed_by_releases(after, (n - 1) as nat);
        assert forall|i: int| 1 <= i < n implies #[trigger] owed_by_releases(h, n)[i]
            == Release::Nothing by {
            assert(owed_by_releases(h, n)[i] == rest[i - 1]);
            if i == 1 {
                assert(rest[0] == released(after).1);
            }
        }
    }
}

} // verus!
