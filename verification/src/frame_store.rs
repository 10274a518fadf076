//! The latest captured frame and the service status that the HTTP endpoints
//! report.
//!
//! The store is a plain value with `&mut self` updates; sharing it between the
//! capture thread and the HTTP handlers (behind a lock) is left to the caller.
use vstd::prelude::*;

verus! {

/// Health of the camera pipeline.
#[derive(Debug, Clone, Copy, PartialEq, Eq, Structural)]
pub enum CameraState {
    Starting,
    Running,
    Degraded,
    Failed,
}

/// Metadata of one captured frame.
///
/// `analogue_gain_bits` holds the IEEE-754 bit pattern of the `f32` analogue
/// gain (`f32::to_bits`), so that the gain travels through the store unchanged.
#[derive(Debug, Clone, PartialEq)]
pub struct FrameMetadata {
    pub frame_index: u64,
    pub sensor_ts_ns: i64,
    pub exposure_us: i32,
    pub analogue_gain_bits: u32,
    pub coi_ns: i64,
    pub width: u32,
    pub height: u32,
    pub pixel_format: String,
    pub captured_at_unix_ms: u64,
}

/// Mathematical value of a [`FrameMetadata`].
pub struct FrameMetadataModel {
    pub frame_index: u64,
    pub sensor_ts_ns: i64,
    pub exposure_us: i32,
    pub analogue_gain_bits: u32,
    pub coi_ns: i64,
    pub width: u32,
    pub height: u32,
    pub pixel_format: Seq<char>,
    pub captured_at_unix_ms: u64,
}

impl View for FrameMetadata {
    type V = FrameMetadataModel;

    open spec fn view(&self) -> FrameMetadataModel {
        FrameMetadataModel {
            frame_index: self.frame_index,
            sensor_ts_ns: self.sensor_ts_ns,
            exposure_us: self.exposure_us,
            analogue_gain_bits: self.analogue_gain_bits,
            coi_ns: self.coi_ns,
            width: self.width,
            height: self.height,
            pixel_format: self.pixel_format@,
            captured_at_unix_ms: self.captured_at_unix_ms,
        }
    }
}

/// What the `/status` endpoint reports.
#[derive(Debug, Clone, PartialEq)]
pub struct ServiceStatus {
    pub camera_state: CameraState,
    pub frame_count: u64,
    pub width: u32,
    pub height: u32,
    pub pixel_format: String,
    pub latest_frame: Option<FrameMetadata>,
    pub last_error: Option<String>,
}

/// Mathematical value of a [`ServiceStatus`].
pub struct ServiceStatusModel {
    pub camera_state: CameraState,
    pub frame_count: u64,
    pub width: u32,
    pub height: u32,
    pub pixel_format: Seq<char>,
    pub latest_frame: Option<FrameMetadataModel>,
    pub last_error: Option<Seq<char>>,
}

/// Value of an optional [`FrameMetadata`].
pub open spec fn metadata_model(m: Option<FrameMetadata>) -> Option<FrameMetadataModel> {
    match m {
        Some(m) => Some(m@),
        None => None,
    }
}

/// Value of an optional `String`.
pub open spec fn text_model(s: Option<String>) -> Option<Seq<char>> {
    match s {
        Some(s) => Some(s@),
        None => None,
    }
}

impl View for ServiceStatus {
    type V = ServiceStatusModel;

    open spec fn view(&self) -> ServiceStatusModel {
        ServiceStatusModel {
            camera_state: self.camera_state,
            frame_count: self.frame_count,
            width: self.width,
            height: self.height,
            pixel_format: self.pixel_format@,
            latest_frame: metadata_model(self.latest_frame),
            last_error: text_model(self.last_error),
        }
    }
}

/// The most recent frame: its JPEG bytes and its metadata.
#[derive(Debug, Clone, PartialEq)]
pub struct LatestFrame {
    pub jpeg: Vec<u8>,
    pub metadata: FrameMetadata,
}

/// Value of a [`LatestFrame`]: the JPEG bytes and the metadata.
pub struct LatestFrameModel {
    pub jpeg: Seq<u8>,
    pub metadata: FrameMetadataModel,
}

impl View for LatestFrame {
    type V = LatestFrameModel;

    open spec fn view(&self) -> LatestFrameModel {
        LatestFrameModel { jpeg: self.jpeg@, metadata: self.metadata@ }
    }
}

/// Value of an optional [`LatestFrame`].
pub open spec fn latest_model(f: Option<LatestFrame>) -> Option<LatestFrameModel> {
    match f {
        Some(f) => Some(f@),
        None => None,
    }
}

/// Value of a [`FrameStore`]: the status and the latest frame.
pub struct FrameStoreModel {
    pub status: ServiceStatusModel,
    pub latest: Option<LatestFrameModel>,
}

impl FrameStoreModel {
    /// The status reports the metadata of exactly the frame that is stored.
    pub open spec fn consistent(self) -> bool {
        self.status.latest_frame == match self.latest {
            Some(f) => Some(f.metadata),
            None => None::<FrameMetadataModel>,
        }
    }

    /// A fresh store: no frame yet, no error, frame count zero.
    pub open spec fn initial(
        camera_state: CameraState,
        width: u32,
        height: u32,
        pixel_format: Seq<char>,
    ) -> FrameStoreModel {
        FrameStoreModel {
            status: ServiceStatusModel {
                camera_state,
                frame_count: 0,
                width,
                height,
                pixel_format,
                latest_frame: None,
                last_error: None,
            },
            latest: None,
        }
    }

    /// The store after a frame is stored: the frame becomes the latest one,
    /// the count grows by one, size and pixel format follow the frame's
    /// metadata, and any earlier error is cleared. The camera state is kept.
    pub open spec fn with_frame(self, jpeg: Seq<u8>, metadata: FrameMetadataModel) -> FrameStoreModel {
        FrameStoreModel {
            status: ServiceStatusModel {
                camera_state: self.status.camera_state,
                frame_count: (self.status.frame_count + 1) as u64,
                width: metadata.width,
                height: metadata.height,
                pixel_format: metadata.pixel_format,
                latest_frame: Some(metadata),
                last_error: None,
            },
            latest: Some(LatestFrameModel { jpeg, metadata }),
        }
    }

    /// The store with another camera state and nothing else changed.
    pub open spec fn with_camera_state(self, camera_state: CameraState) -> FrameStoreModel {
        FrameStoreModel {
            status: ServiceStatusModel { camera_state, ..self.status },
            latest: self.latest,
        }
    }

    /// The store with another last error and nothing else changed.
    pub open spec fn with_last_error(self, last_error: Seq<char>) -> FrameStoreModel {
        FrameStoreModel {
            status: ServiceStatusModel { last_error: Some(last_error), ..self.status },
            latest: self.latest,
        }
    }
}

/// The latest frame and the status of the service.
#[derive(Debug)]
pub struct FrameStore {
    status: ServiceStatus,
    latest_frame: Option<LatestFrame>,
}

impl View for FrameStore {
    type V = FrameStoreModel;

    closed spec fn view(&self) -> FrameStoreModel {
        FrameStoreModel { status: self.status@, latest: latest_model(self.latest_frame) }
    }
}

impl FrameStore {
    /// Every store reports in its status the metadata of the frame it holds.
    #[verifier::type_invariant]
    pub open spec fn status_matches_frame(&self) -> bool {
        self@.consistent()
    }

    /// An empty store for a camera in `camera_state` that was configured with
    /// the given size and pixel format.
    pub fn new(camera_state: CameraState, width: u32, height: u32, pixel_format: &str) -> (store: Self)
        ensures
            store@ == FrameStoreModel::initial(camera_state, width, height, pixel_format@),
            store@.consistent(),
    {
        let pixel_format = String::from_str(pixel_format);
        Self {
            status: ServiceStatus {
                camera_state,
                frame_count: 0,
                width,
                height,
                pixel_format,
                latest_frame: None,
                last_error: None,
            },
            latest_frame: None,
        }
    }

    /// A copy of the current status.
    pub fn status(&self) -> (status: ServiceStatus)
        ensures
            status@ == self@.status,
            self@.consistent(),
    {
        proof {
            use_type_invariant(self);
        }
        copy_status(&self.status)
    }

    /// A copy of the latest frame, if one was stored.
    pub fn latest_frame(&self) -> (frame: Option<LatestFrame>)
        ensures
            latest_model(frame) == self@.latest,
            self@.consistent(),
    {
        proof {
            use_type_invariant(self);
        }
        self.copy_latest()
    }

    /// Stores a newly captured frame (see [`FrameStoreModel::with_frame`]).
    pub fn update_frame(&mut self, jpeg: Vec<u8>, metadata: FrameMetadata)
        requires
            old(self)@.status.frame_count < u64::MAX,
        ensures
            final(self)@ == old(self)@.with_frame(jpeg@, metadata@),
            final(self)@.consistent(),
    {
        let status = ServiceStatus {
            camera_state: self.status.camera_state,
            frame_count: self.status.frame_count + 1,
            width: metadata.width,
            height: metadata.height,
            pixel_format: copy_text(&metadata.pixel_format),
            latest_frame: Some(copy_metadata(&metadata)),
            last_error: None,
        };
        *self = FrameStore { status, latest_frame: Some(LatestFrame { jpeg, metadata }) };
    }

    /// Records the camera's state.
    pub fn set_camera_state(&mut self, camera_state: CameraState)
        ensures
            final(self)@ == old(self)@.with_camera_state(camera_state),
            final(self)@.consistent(),
    {
        proof {
            use_type_invariant(&*self);
        }
        let status = ServiceStatus { camera_state, ..copy_status(&self.status) };
        let latest_frame = self.copy_latest();
        *self = FrameStore { status, latest_frame };
    }

    /// Records the most recent error.
    pub fn set_last_error(&mut self, last_error: &str)
        ensures
            final(self)@ == old(self)@.with_last_error(last_error@),
            final(self)@.consistent(),
    {
        proof {
            use_type_invariant(&*self);
        }
        let status = ServiceStatus { last_error: Some(String::from_str(last_error)), ..copy_status(&self.status) };
        let latest_frame = self.copy_latest();
        *self = FrameStore { status, latest_frame };
    }

    /// A copy of the stored frame.
    fn copy_latest(&self) -> (frame: Option<LatestFrame>)
        ensures
            latest_model(frame) == latest_model(self.latest_frame),
    {
        match &self.latest_frame {
            Some(frame) => Some(
                LatestFrame { jpeg: copy_bytes(&frame.jpeg), metadata: copy_metadata(&frame.metadata) },
            ),
            None => None,
        }
    }
}

/// Storing a frame and reading back gives that frame: its bytes and
/// metadata become the latest frame, the status reports the same metadata,
/// the frame count grows by one, the last error is cleared, and the status
/// stays consistent with the stored frame.
pub proof fn lemma_frame_read_back(store: FrameStoreModel, jpeg: Seq<u8>, metadata: FrameMetadataModel)
    requires
        store.status.frame_count < u64::MAX,
    ensures
        store.with_frame(jpeg, metadata).latest == Some(LatestFrameModel { jpeg, metadata }),
        store.with_frame(jpeg, metadata).status.latest_frame == Some(metadata),
        store.with_frame(jpeg, metadata).status.frame_count == store.status.frame_count + 1,
        store.with_frame(jpeg, metadata).status.last_error is None,
        store.with_frame(jpeg, metadata).consistent(),
{
}

/// Recording a camera state or an error leaves the stored frame and the frame
/// count as they were, and keeps the status consistent with the stored frame.
pub proof fn lemma_state_and_error_keep_frame(
    store: FrameStoreModel,
    camera_state: CameraState,
    last_error: Seq<char>,
)
    requires
        store.consistent(),
    ensures
        store.with_camera_state(camera_state).latest == store.latest,
        store.with_camera_state(camera_state).status.frame_count == store.status.frame_count,
        store.with_camera_state(camera_state).consistent(),
        store.with_last_error(last_error).latest == store.latest,
        store.with_last_error(last_error).status.frame_count == store.status.frame_count,
        store.with_last_error(last_error).consistent(),
{
}

/// One mutation of a frame store, as a mathematical value: what
/// `FrameStore::update_frame`, `set_camera_state` and `set_last_error` do.
pub enum StoreOp {
    UpdateFrame { jpeg: Seq<u8>, metadata: FrameMetadataModel },
    SetCameraState(CameraState),
    SetLastError(Seq<char>),
}

impl FrameStoreModel {
    /// The store after one operation, as the methods' contracts state it.
    pub open spec fn apply(self, op: StoreOp) -> FrameStoreModel {
        match op {
            StoreOp::UpdateFrame { jpeg, metadata } => self.with_frame(jpeg, metadata),
            StoreOp::SetCameraState(camera_state) => self.with_camera_state(camera_state),
            StoreOp::SetLastError(last_error) => self.with_last_error(last_error),
        }
    }
}

/// The store after the operations `ops`, in order.
pub open spec fn apply_all(store: FrameStoreModel, ops: Seq<StoreOp>) -> FrameStoreModel
    decreases ops.len(),
{
    if ops.len() == 0 {
        store
    } else {
        apply_all(store, ops.drop_last()).apply(ops.last())
    }
}

/// How many of `ops` store a frame.
pub open spec fn update_count(ops: Seq<StoreOp>) -> nat
    decreases ops.len(),
{
    if ops.len() == 0 {
        0
    } else {
        update_count(ops.drop_last()) + if ops.last() is UpdateFrame {
            1nat
        } else {
            0nat
        }
    }
}

/// For a store made by `FrameStore::new` and then changed by any sequence of
/// `update_frame`, `set_camera_state` and `set_last_error` calls: the frame
/// count is the number of `update_frame` calls, the status reports the
/// metadata of the stored frame, and there is a stored frame exactly when
/// `update_frame` was called at least once. (`status` and `latest_frame`
/// take `&self` and change nothing.)
pub proof fn lemma_frame_count_counts_updates(
    camera_state: CameraState,
    width: u32,
    height: u32,
    pixel_format: Seq<char>,
    ops: Seq<StoreOp>,
)
    requires
        update_count(ops) <= u64::MAX,
    ensures
        apply_all(FrameStoreModel::initial(camera_state, width, height, pixel_format), ops).status.frame_count
            == update_count(ops),
        apply_all(FrameStoreModel::initial(camera_state, width, height, pixel_format), ops).consistent(),
        apply_all(FrameStoreModel::initial(camera_state, width, height, pixel_format), ops).latest is Some
            <==> update_count(ops) > 0,
    decreases ops.len(),
{
    if ops.len() > 0 {
        assert(update_count(ops.drop_last()) <= update_count(ops));
        lemma_frame_count_counts_updates(camera_state, width, height, pixel_format, ops.drop_last());
    }
}

/// A copy of a byte vector.
fn copy_bytes(bytes: &Vec<u8>) -> (copy: Vec<u8>)
    ensures
        copy@ == bytes@,
{
    let copy = bytes.clone();
    assert(copy@ =~= bytes@);
    copy
}

/// A copy of a string.
fn copy_text(text: &String) -> (copy: String)
    ensures
        copy@ == text@,
{
    text.clone()
}

/// A copy of frame metadata.
fn copy_metadata(m: &FrameMetadata) -> (copy: FrameMetadata)
    ensures
        copy@ == m@,
{
    FrameMetadata {
        frame_index: m.frame_index,
        sensor_ts_ns: m.sensor_ts_ns,
        exposure_us: m.exposure_us,
        analogue_gain_bits: m.analogue_gain_bits,
        coi_ns: m.coi_ns,
        width: m.width,
        height: m.height,
        pixel_format: copy_text(&m.pixel_format),
        captured_at_unix_ms: m.captured_at_unix_ms,
    }
}

/// A copy of a service status.
fn copy_status(s: &ServiceStatus) -> (copy: ServiceStatus)
    ensures
        copy@ == s@,
{
    ServiceStatus {
        camera_state: s.camera_state,
        frame_count: s.frame_count,
        width: s.width,
        height: s.height,
        pixel_format: copy_text(&s.pixel_format),
        latest_frame: match &s.latest_frame {
            Some(m) => Some(copy_metadata(m)),
            None => None,
        },
        last_error: match &s.last_error {
            Some(e) => Some(copy_text(e)),
            None => None,
        },
    }
}

} // verus!
