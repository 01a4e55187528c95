//! Camera handles and the operations on them.
//!
//! An operation that needs the device does not touch it: it returns a step
//! that says what the caller has to do with the device next, and the caller
//! reports the outcome to get the step after that, until a step returns a
//! status.

use crate::cstr::{copy_cstr, cstr_written};
use crate::frame::{low32, to_u32};
use crate::status::{
    device_status, device_status_spec, CMLN_ERR, CMLN_ERR_ALREADY_OPENED, CMLN_ERR_NOT_OPENED,
    CMLN_ERR_NULL_HANDLE, CMLN_OK,
};
use cameleon::CameraInfo;
use vstd::prelude::*;
use vstd::utf8::encode_utf8;

verus! {

/// What `cameleon` knows of a camera without opening it.
#[verifier::external_type_specification]
#[verifier::external_body]
pub struct ExCameraInfo(CameraInfo);

/// The `vendor_name` of a `CameraInfo`.
pub uninterp spec fn info_vendor_name(info: CameraInfo) -> Seq<char>;

/// The `model_name` of a `CameraInfo`.
pub uninterp spec fn info_model_name(info: CameraInfo) -> Seq<char>;

/// The `serial_number` of a `CameraInfo`.
pub uninterp spec fn info_serial_number(info: CameraInfo) -> Seq<char>;

/// Copies the public field `vendor_name` of a `CameraInfo`. The contract
/// names its characters.
#[verifier::external_body]
fn read_vendor_name(info: &CameraInfo) -> (name: String)
    ensures
        name@ == info_vendor_name(*info),
{
    info.vendor_name.clone()
}

/// Copies the public field `model_name` of a `CameraInfo`. The contract names
/// its characters.
#[verifier::external_body]
fn read_model_name(info: &CameraInfo) -> (name: String)
    ensures
        name@ == info_model_name(*info),
{
    info.model_name.clone()
}

/// Copies the public field `serial_number` of a `CameraInfo`. The contract
/// names its characters.
#[verifier::external_body]
fn read_serial_number(info: &CameraInfo) -> (number: String)
    ensures
        number@ == info_serial_number(*info),
{
    info.serial_number.clone()
}

/// Snapshot of a camera's identity. A handle keeps it for as long as it
/// lives, also once its camera is closed or gone.
#[derive(Debug)]
pub struct CamInfo {
    /// Vendor of the camera.
    pub vendor_name: String,
    /// Model of the camera.
    pub model_name: String,
    /// Serial number of the camera.
    pub serial_number: String,
}

/// A `CamInfo`, with its strings as character sequences.
#[verifier::ext_equal]
pub struct CamInfoView {
    pub vendor_name: Seq<char>,
    pub model_name: Seq<char>,
    pub serial_number: Seq<char>,
}

impl View for CamInfo {
    type V = CamInfoView;

    open spec fn view(&self) -> CamInfoView {
        CamInfoView {
            vendor_name: self.vendor_name@,
            model_name: self.model_name@,
            serial_number: self.serial_number@,
        }
    }
}

/// The identity that a `CameraInfo` states.
pub open spec fn camera_info_view(info: CameraInfo) -> CamInfoView {
    CamInfoView {
        vendor_name: info_vendor_name(info),
        model_name: info_model_name(info),
        serial_number: info_serial_number(info),
    }
}

impl Clone for CamInfo {
    fn clone(&self) -> (copy: CamInfo)
        ensures
            copy@ == self@,
            copy.vendor_name@ == self.vendor_name@,
            copy.model_name@ == self.model_name@,
            copy.serial_number@ == self.serial_number@,
    {
        CamInfo {
            vendor_name: self.vendor_name.clone(),
            model_name: self.model_name.clone(),
            serial_number: self.serial_number.clone(),
        }
    }
}

impl CamInfo {
    /// Takes the snapshot of what `cameleon` knows of a camera.
    pub fn snapshot(info: &CameraInfo) -> (snapshot: CamInfo)
        ensures
            snapshot@ == camera_info_view(*info),
            snapshot.vendor_name@ == info_vendor_name(*info),
            snapshot.model_name@ == info_model_name(*info),
            snapshot.serial_number@ == info_serial_number(*info),
    {
        CamInfo {
            vendor_name: read_vendor_name(info),
            model_name: read_model_name(info),
            serial_number: read_serial_number(info),
        }
    }
}

/// A camera that an enumeration found.
#[derive(Debug)]
pub struct FoundCamera<D> {
    /// Its identity.
    pub info: CamInfo,
    /// The device.
    pub camera: D,
}

/// Handle of a camera. It owns the device until a capture takes it.
#[derive(Debug)]
pub struct CmlnCamera<D> {
    cam_info: CamInfo,
    camera: Option<D>,
    opened: bool,
}

/// What a camera handle holds: the camera's identity, the device unless a
/// capture has taken it, and whether the device was opened.
#[verifier::ext_equal]
pub struct CameraView<D> {
    pub info: CamInfoView,
    pub camera: Option<D>,
    pub opened: bool,
}

impl<D> CameraView<D> {
    /// The device was taken out of the handle.
    pub open spec fn taken(self) -> CameraView<D> {
        CameraView { camera: None, opened: false, ..self }
    }

    /// Opening the device was tried.
    pub open spec fn open_tried(self, ok: bool) -> CameraView<D> {
        if ok {
            CameraView { opened: true, ..self }
        } else {
            self
        }
    }

    /// Closing the device was tried, on behalf of `cmln_camera_close`.
    pub open spec fn close_tried(self, ok: bool) -> CameraView<D> {
        if ok {
            CameraView { opened: false, ..self }
        } else {
            self
        }
    }
}

impl<D> View for CmlnCamera<D> {
    type V = CameraView<D>;

    closed spec fn view(&self) -> CameraView<D> {
        CameraView { info: self.cam_info@, camera: self.camera, opened: self.opened }
    }
}

impl<D> CmlnCamera<D> {
    /// The handle of a found camera.
    pub fn new(found: FoundCamera<D>) -> (cam: CmlnCamera<D>)
        ensures
            cam@ == handle_of(found),
            cam@.info == found.info@,
            cam@.camera == Some(found.camera),
            !cam@.opened,
    {
        CmlnCamera { cam_info: found.info, camera: Some(found.camera), opened: false }
    }

    /// The camera's identity.
    pub fn info(&self) -> (info: &CamInfo)
        ensures
            info@ == self@.info,
    {
        &self.cam_info
    }

    /// Lends out the device, for the caller to carry out a step on it.
    pub fn camera_mut(&mut self) -> (camera: Option<&mut D>)
        ensures
            camera is Some <==> old(self)@.camera is Some,
            final(self)@.info == old(self)@.info,
            final(self)@.opened == old(self)@.opened,
            match camera {
                Some(d) => {
                    &&& old(self)@.camera == Some(*d)
                    &&& final(self)@.camera == Some(*final(d))
                },
                None => final(self)@.camera is None,
            },
    {
        match &mut self.camera {
            Some(d) => Some(d),
            None => None,
        }
    }

    /// Takes the device out of the handle.
    pub(crate) fn take_camera(&mut self) -> (camera: Option<D>)
        ensures
            camera == old(self)@.camera,
            final(self)@ == old(self)@.taken(),
    {
        self.opened = false;
        self.camera.take()
    }
}

/// The handle that a found camera gets: it keeps the identity and owns the
/// device, which is not opened.
pub open spec fn handle_of<D>(found: FoundCamera<D>) -> CameraView<D> {
    CameraView { info: found.info@, camera: Some(found.camera), opened: false }
}

// ---------------------------------------------------------------------------
// Enumeration
// ---------------------------------------------------------------------------

/// What an enumeration does first.
#[derive(Clone, Copy, Debug, PartialEq, Eq, Structural)]
pub enum EnumerateStep {
    /// Return this status; neither output can be written.
    Return(i32),
    /// Look for cameras, close each one that was found, whatever comes of
    /// that, and hand them to `cmln_enumerate`.
    ScanAndClose,
}

/// Decides whether cameras are looked for: only if there is a place for the
/// handles and one for their count.
pub fn enumerate_begin(out_handles: bool, out_count: bool) -> (step: EnumerateStep)
    ensures
        step == (if out_handles && out_count {
            EnumerateStep::ScanAndClose
        } else {
            EnumerateStep::Return(CMLN_ERR_NULL_HANDLE)
        }),
{
    if !out_handles || !out_count {
        EnumerateStep::Return(CMLN_ERR_NULL_HANDLE)
    } else {
        EnumerateStep::ScanAndClose
    }
}

/// What an enumeration returns and writes.
#[derive(Debug)]
pub struct Enumeration<D> {
    /// The status to return.
    pub status: i32,
    /// The handle array to write; `None` stands for a null array.
    pub handles: Option<Vec<CmlnCamera<D>>>,
    /// The count to write.
    pub count: u32,
}

/// Gives each found camera its handle, in the order in which they were found.
/// A failed scan gives the error status. There is a handle array only if
/// there is a handle in it.
pub fn cmln_enumerate<D, E>(found: Result<Vec<FoundCamera<D>>, E>) -> (res: Enumeration<D>)
    ensures
        match found {
            Ok(cameras) => {
                &&& res.status == CMLN_OK
                &&& res.count == low32(cameras@.len() as int)
                &&& res.handles is Some <==> cameras@.len() > 0
                &&& res.handles matches Some(handles) ==> {
                    &&& handles@.len() == cameras@.len()
                    &&& forall|i: int|
                        0 <= i < handles@.len() ==> (#[trigger] handles@[i])@ == handle_of(
                            cameras@[i],
                        )
                }
            },
            Err(_) => res.status == CMLN_ERR && res.handles is None && res.count == 0,
        },
{
    match found {
        Ok(cameras) => {
            let n: usize = cameras.len();
            let mut handles: Vec<CmlnCamera<D>> = Vec::new();
            let ghost all = cameras@;
            for cam in it: cameras
                invariant
                    it.seq() == all,
                    handles@.len() == it.index(),
                    forall|i: int|
                        0 <= i < handles@.len() ==> (#[trigger] handles@[i])@ == handle_of(all[i]),
            {
                handles.push(CmlnCamera::new(cam));
            }
            if n == 0 {
                return Enumeration { status: CMLN_OK, handles: None, count: 0 };
            }
            Enumeration { status: CMLN_OK, handles: Some(handles), count: to_u32(n) }
        },
        Err(_) => Enumeration { status: CMLN_ERR, handles: None, count: 0 },
    }
}

/// How many slots of a handle array are released: those that the count says,
/// and nothing at all without an array or without slots.
pub open spec fn released_slots(handles: bool, count: u32) -> Option<usize> {
    if handles && count > 0 {
        Some(count as usize)
    } else {
        None
    }
}

/// Says how many slots of a handle array to release. The cameras behind the
/// handles stay.
pub fn cmln_free_enum(handles: bool, count: u32) -> (slots: Option<usize>)
    ensures
        slots == released_slots(handles, count),
        slots is Some <==> handles && count > 0,
        slots matches Some(n) ==> n == count,
{
    if !handles || count == 0 {
        return None;
    }
    Some(count as usize)
}

// ---------------------------------------------------------------------------
// Identity
// ---------------------------------------------------------------------------

/// Copies vendor, model and serial number of a camera into those of the C
/// buffers that there are.
pub fn cmln_camera_info<D>(
    cam: Option<&CmlnCamera<D>>,
    out_vendor: Option<&mut [u8]>,
    out_model: Option<&mut [u8]>,
    out_serial: Option<&mut [u8]>,
) -> (status: i32)
    ensures
        status == (if cam is Some {
            CMLN_OK
        } else {
            CMLN_ERR_NULL_HANDLE
        }),
        out_vendor matches Some(d) ==> final(d)@ == match cam {
            Some(c) => cstr_written(encode_utf8(c@.info.vendor_name), d@),
            None => d@,
        },
        out_model matches Some(d) ==> final(d)@ == match cam {
            Some(c) => cstr_written(encode_utf8(c@.info.model_name), d@),
            None => d@,
        },
        out_serial matches Some(d) ==> final(d)@ == match cam {
            Some(c) => cstr_written(encode_utf8(c@.info.serial_number), d@),
            None => d@,
        },
{
    match cam {
        None => CMLN_ERR_NULL_HANDLE,
        Some(c) => {
            copy_cstr(c.cam_info.vendor_name.as_str(), out_vendor);
            copy_cstr(c.cam_info.model_name.as_str(), out_model);
            copy_cstr(c.cam_info.serial_number.as_str(), out_serial);
            CMLN_OK
        },
    }
}

// ---------------------------------------------------------------------------
// Opening
// ---------------------------------------------------------------------------

/// How often opening is tried.
pub const OPEN_ATTEMPTS: u32 = 5;

/// The pause between two attempts, in milliseconds.
pub const OPEN_RETRY_MILLIS: u64 = 100;

/// What opening a camera does next.
#[derive(Clone, Copy, Debug, PartialEq, Eq, Structural)]
pub enum OpenStep {
    /// Return this status.
    Return(i32),
    /// Close the device, so that opening starts from a clean state.
    Close,
    /// Open the device; attempts are counted from zero.
    Open { attempt: u32 },
    /// Pause, before the attempt of this number.
    Wait { attempt: u32, millis: u64 },
}

/// The first step of opening a camera: none for a null handle, nor for one
/// whose camera a capture has taken or is opened already.
pub open spec fn open_first<D>(cam: Option<CameraView<D>>) -> OpenStep {
    match cam {
        Some(c) if c.camera is Some => if c.opened {
            OpenStep::Return(CMLN_ERR_ALREADY_OPENED)
        } else {
            OpenStep::Close
        },
        _ => OpenStep::Return(CMLN_ERR_NULL_HANDLE),
    }
}

/// The step that follows `step` when that was carried out with the outcome
/// `ok`. What comes of closing does not matter; a failed attempt is followed
/// by a pause and the next attempt, until there is none left.
pub open spec fn open_after(step: OpenStep, ok: bool) -> OpenStep {
    match step {
        OpenStep::Return(status) => OpenStep::Return(status),
        OpenStep::Close => OpenStep::Open { attempt: 0 },
        OpenStep::Open { attempt } => if ok {
            OpenStep::Return(CMLN_OK)
        } else if attempt + 1 < OPEN_ATTEMPTS {
            OpenStep::Wait { attempt: (attempt + 1) as u32, millis: OPEN_RETRY_MILLIS }
        } else {
            OpenStep::Return(CMLN_ERR)
        },
        OpenStep::Wait { attempt, millis } => OpenStep::Open { attempt },
    }
}

/// Begins to open a camera.
pub fn cmln_camera_open<D>(cam: Option<&CmlnCamera<D>>) -> (step: OpenStep)
    ensures
        step == open_first(handle_view(cam)),
        cam is None ==> step == OpenStep::Return(CMLN_ERR_NULL_HANDLE),
        cam matches Some(c) ==> step == if c@.camera is None {
            OpenStep::Return(CMLN_ERR_NULL_HANDLE)
        } else if c@.opened {
            OpenStep::Return(CMLN_ERR_ALREADY_OPENED)
        } else {
            OpenStep::Close
        },
{
    match cam {
        None => OpenStep::Return(CMLN_ERR_NULL_HANDLE),
        Some(c) => match &c.camera {
            Some(_) => {
                if c.opened {
                    OpenStep::Return(CMLN_ERR_ALREADY_OPENED)
                } else {
                    OpenStep::Close
                }
            },
            None => OpenStep::Return(CMLN_ERR_NULL_HANDLE),
        },
    }
}

/// The handle after a step of opening was carried out with the outcome `ok`:
/// an accepted attempt opens it.
pub open spec fn opening_after<D>(
    cam: CameraView<D>,
    step: OpenStep,
    ok: bool,
) -> CameraView<D> {
    if step is Open {
        cam.open_tried(ok)
    } else {
        cam
    }
}

/// Goes on opening a camera, `step` having been carried out with the outcome
/// `ok`.
pub fn open_next<D>(cam: &mut CmlnCamera<D>, step: OpenStep, ok: bool) -> (next: OpenStep)
    ensures
        next == open_after(step, ok),
        final(cam)@ == opening_after(old(cam)@, step, ok),
        final(cam)@.info == old(cam)@.info,
        final(cam)@.camera == old(cam)@.camera,
        final(cam)@.opened <==> old(cam)@.opened || step is Open && ok,
{
    match step {
        OpenStep::Return(status) => OpenStep::Return(status),
        OpenStep::Close => OpenStep::Open { attempt: 0 },
        OpenStep::Open { attempt } => {
            if ok {
                cam.opened = true;
                OpenStep::Return(CMLN_OK)
            } else if attempt < OPEN_ATTEMPTS - 1 {
                OpenStep::Wait { attempt: attempt + 1, millis: OPEN_RETRY_MILLIS }
            } else {
                OpenStep::Return(CMLN_ERR)
            }
        },
        OpenStep::Wait { attempt, .. } => OpenStep::Open { attempt },
    }
}

/// What a handle that may be null holds.
pub open spec fn handle_view<D>(cam: Option<&CmlnCamera<D>>) -> Option<CameraView<D>> {
    match cam {
        Some(c) => Some(c@),
        None => None,
    }
}

// ---------------------------------------------------------------------------
// Closing, loading the context, destroying
// ---------------------------------------------------------------------------

/// What closing a camera does.
#[derive(Clone, Copy, Debug, PartialEq, Eq, Structural)]
pub enum CloseStep {
    /// Return this status.
    Return(i32),
    /// Close the device and return what `close_done` makes of that.
    Close,
}

/// What closing a camera does: nothing but an error for a null handle,
/// nothing for one whose camera a capture has taken.
pub open spec fn close_first<D>(cam: Option<CameraView<D>>) -> CloseStep {
    match cam {
        None => CloseStep::Return(CMLN_ERR_NULL_HANDLE),
        Some(c) => if c.camera is Some {
            CloseStep::Close
        } else {
            CloseStep::Return(CMLN_OK)
        },
    }
}

/// Begins to close a camera.
pub fn cmln_camera_close<D>(cam: Option<&CmlnCamera<D>>) -> (step: CloseStep)
    ensures
        step == close_first(handle_view(cam)),
        cam is None ==> step == CloseStep::Return(CMLN_ERR_NULL_HANDLE),
        cam matches Some(c) ==> step == if c@.camera is None {
            CloseStep::Return(CMLN_OK)
        } else {
            CloseStep::Close
        },
{
    match cam {
        None => CloseStep::Return(CMLN_ERR_NULL_HANDLE),
        Some(c) => {
            if c.camera.is_none() {
                return CloseStep::Return(CMLN_OK);
            }
            CloseStep::Close
        },
    }
}

/// Ends closing a camera, the device having been closed with the outcome
/// `ok`.
pub fn close_done<D>(cam: &mut CmlnCamera<D>, ok: bool) -> (status: i32)
    ensures
        status == device_status_spec(ok),
        final(cam)@ == old(cam)@.close_tried(ok),
        final(cam)@.info == old(cam)@.info,
        final(cam)@.camera == old(cam)@.camera,
        final(cam)@.opened <==> old(cam)@.opened && !ok,
{
    if ok {
        cam.opened = false;
    }
    device_status(ok)
}

/// What loading a camera's context does.
#[derive(Clone, Copy, Debug, PartialEq, Eq, Structural)]
pub enum LoadContextStep {
    /// Return this status.
    Return(i32),
    /// Load the context and return the `device_status` of that.
    Load,
}

/// What loading a camera's context does: nothing but an error for a null
/// handle, for one whose camera a capture has taken, and for one whose camera
/// is not opened.
pub open spec fn load_context_first<D>(cam: Option<CameraView<D>>) -> LoadContextStep {
    match cam {
        Some(c) if c.camera is Some => if c.opened {
            LoadContextStep::Load
        } else {
            LoadContextStep::Return(CMLN_ERR_NOT_OPENED)
        },
        _ => LoadContextStep::Return(CMLN_ERR_NULL_HANDLE),
    }
}

/// Begins to load a camera's context.
pub fn cmln_camera_load_context<D>(cam: Option<&CmlnCamera<D>>) -> (step: LoadContextStep)
    ensures
        step == load_context_first(handle_view(cam)),
        cam is None ==> step == LoadContextStep::Return(CMLN_ERR_NULL_HANDLE),
        cam matches Some(c) ==> step == if c@.camera is None {
            LoadContextStep::Return(CMLN_ERR_NULL_HANDLE)
        } else if c@.opened {
            LoadContextStep::Load
        } else {
            LoadContextStep::Return(CMLN_ERR_NOT_OPENED)
        },
{
    match cam {
        None => LoadContextStep::Return(CMLN_ERR_NULL_HANDLE),
        Some(c) => {
            if c.camera.is_none() {
                return LoadContextStep::Return(CMLN_ERR_NULL_HANDLE);
            }
            if !c.opened {
                return LoadContextStep::Return(CMLN_ERR_NOT_OPENED);
            }
            LoadContextStep::Load
        },
    }
}

/// The device that destroying a handle gives up.
pub open spec fn released_camera<D>(cam: Option<CameraView<D>>) -> Option<D> {
    match cam {
        Some(c) => c.camera,
        None => None,
    }
}

/// Ends a camera handle and gives up the device that it still owns, for the
/// caller to drop.
pub fn cmln_camera_destroy<D>(cam: Option<CmlnCamera<D>>) -> (released: Option<D>)
    ensures
        released == released_camera(
            match cam {
                Some(c) => Some(c@),
                None => None,
            },
        ),
        cam is None ==> released is None,
        cam matches Some(c) ==> released == c@.camera,
{
    match cam {
        Some(c) => c.camera,
        None => None,
    }
}

} // verus!
