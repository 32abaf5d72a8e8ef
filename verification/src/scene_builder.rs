//! The decisions of the scene builder: what to answer to a request, what a
//! transaction does to a scene, and what to tell the render backend and the
//! embedder of the transactions that were built.
//!
//! The scene builder runs on a thread of its own and talks through
//! channels. Receiving, sending and building are the caller's work: it
//! hands each event to the functions here and does what they answer.

use vstd::prelude::*;

verus! {

/// The namespace of a client of the renderer.
#[derive(Clone, Copy, Debug, PartialEq, Eq, Structural)]
pub struct IdNamespace(pub u32);

/// A document: a namespace and a number in it.
#[derive(Clone, Copy, Debug, PartialEq, Eq, Structural)]
pub struct DocumentId {
    pub namespace_id: IdNamespace,
    pub id: u32,
}

/// A pipeline.
#[derive(Clone, Copy, Debug, PartialEq, Eq, Structural)]
pub struct PipelineId(pub u32, pub u32);

/// The version of the content of a pipeline.
#[derive(Clone, Copy, Debug, PartialEq, Eq, Structural)]
pub struct Epoch(pub u32);

/// Message to the scene builder thread, without what it carries for others.
#[derive(Clone, Copy, Debug, PartialEq, Eq, Structural)]
pub enum SceneBuilderRequest {
    Transactions,
    AddDocument(DocumentId),
    DeleteDocument(DocumentId),
    GetGlyphDimensions,
    GetGlyphIndices,
    ClearNamespace(IdNamespace),
    SimulateLongSceneBuild(u32),
    ExternalEvent,
    WakeUp,
    StopRenderBackend,
    ShutDown,
    Flush,
    SetFlags,
    SetFrameBuilderConfig,
    SetParameter,
    ReportMemory,
}

/// Message from scene builder to render backend, without what it carries
/// for others.
#[derive(Clone, Copy, Debug, PartialEq, Eq, Structural)]
pub enum SceneBuilderResult {
    Transactions,
    ExternalEvent,
    FlushComplete,
    DeleteDocument(DocumentId),
    ClearNamespace(IdNamespace),
    GetGlyphDimensions,
    GetGlyphIndices,
    SetParameter,
    StopRenderBackend,
    ShutDown,
}

/// Message from render backend to scene builder to indicate the scene swap
/// was completed.
#[derive(Clone, Copy, Debug, PartialEq, Eq, Structural)]
pub enum SceneSwapResult {
    Complete,
    Aborted,
}

/// What the scene builder does with a request.
#[derive(Clone, Copy, Debug, PartialEq, Eq, Structural)]
pub enum Reaction {
    /// Nothing.
    Idle,
    /// Start a new, empty scene for this document, in place of any that the
    /// document had.
    AddDocument(DocumentId),
    /// Send this message to the render backend. With a message that a
    /// document is deleted or a namespace cleared, the scenes of the
    /// documents that are gone are dropped first.
    Send(SceneBuilderResult),
    /// Build the transactions of the request and forward what was built.
    BuildTransactions,
    /// Keep what the request carries: flags or a configuration.
    Store,
    /// Add the memory in use to the report and send the report back.
    ReportMemory,
}

/// What the scene builder knows between two requests, as far as its
/// decisions depend on it.
#[derive(Clone, Debug, PartialEq, Eq)]
pub struct SceneBuilderState {
    /// The documents that have a scene, each once.
    pub documents: Vec<DocumentId>,
    /// How long to sleep after a build, in milliseconds, to simulate a slow
    /// one.
    pub simulate_slow_ms: u32,
}

/// Whether a document stays when a request is taken: a request to delete
/// a document removes that one, a request to clear a namespace those of the
/// namespace, and any other request none.
pub open spec fn keeps(request: SceneBuilderRequest, document_id: DocumentId) -> bool {
    match request {
        SceneBuilderRequest::DeleteDocument(gone) => document_id != gone,
        SceneBuilderRequest::ClearNamespace(id) => document_id.namespace_id != id,
        _ => true,
    }
}

/// The documents that stay when a request is taken, in their order.
pub open spec fn kept_documents(
    documents: Seq<DocumentId>,
    request: SceneBuilderRequest,
) -> Seq<DocumentId>
    decreases documents.len(),
{
    if documents.len() == 0 {
        Seq::empty()
    } else {
        let front = kept_documents(documents.drop_last(), request);
        if keeps(request, documents.last()) {
            front.push(documents.last())
        } else {
            front
        }
    }
}

/// What a request does to the documents: a new document is added, and
/// documents that the request removes are gone.
pub open spec fn documents_after(
    documents: Seq<DocumentId>,
    request: SceneBuilderRequest,
) -> Seq<DocumentId> {
    match request {
        SceneBuilderRequest::AddDocument(document_id) => if documents.contains(document_id) {
            documents
        } else {
            documents.push(document_id)
        },
        _ => kept_documents(documents, request),
    }
}

/// What the scene builder does with a request.
pub open spec fn reaction_to(request: SceneBuilderRequest) -> Reaction {
    match request {
        SceneBuilderRequest::WakeUp => Reaction::Idle,
        SceneBuilderRequest::Flush => Reaction::Send(SceneBuilderResult::FlushComplete),
        SceneBuilderRequest::SetFlags => Reaction::Store,
        SceneBuilderRequest::Transactions => Reaction::BuildTransactions,
        SceneBuilderRequest::AddDocument(document_id) => Reaction::AddDocument(document_id),
        SceneBuilderRequest::DeleteDocument(document_id) => Reaction::Send(
            SceneBuilderResult::DeleteDocument(document_id),
        ),
        SceneBuilderRequest::ClearNamespace(id) => Reaction::Send(
            SceneBuilderResult::ClearNamespace(id),
        ),
        SceneBuilderRequest::ExternalEvent => Reaction::Send(SceneBuilderResult::ExternalEvent),
        SceneBuilderRequest::GetGlyphDimensions => Reaction::Send(
            SceneBuilderResult::GetGlyphDimensions,
        ),
        SceneBuilderRequest::GetGlyphIndices => Reaction::Send(
            SceneBuilderResult::GetGlyphIndices,
        ),
        SceneBuilderRequest::StopRenderBackend => Reaction::Send(
            SceneBuilderResult::StopRenderBackend,
        ),
        SceneBuilderRequest::ShutDown => Reaction::Send(SceneBuilderResult::ShutDown),
        SceneBuilderRequest::SimulateLongSceneBuild(_) => Reaction::Idle,
        SceneBuilderRequest::ReportMemory => Reaction::ReportMemory,
        SceneBuilderRequest::SetFrameBuilderConfig => Reaction::Store,
        SceneBuilderRequest::SetParameter => Reaction::Send(SceneBuilderResult::SetParameter),
    }
}

/// The documents that stay when `request` is taken.
fn retain_documents(documents: &Vec<DocumentId>, request: SceneBuilderRequest) -> (kept: Vec<
    DocumentId,
>)
    ensures
        kept@ == kept_documents(documents@, request),
{
    let mut kept: Vec<DocumentId> = Vec::new();
    let mut i: usize = 0;
    proof {
        assert(documents@.take(0) =~= Seq::<DocumentId>::empty());
    }
    while i < documents.len()
        invariant
            i <= documents@.len(),
            kept@ == kept_documents(documents@.take(i as int), request),
        decreases documents@.len() - i,
    {
        let d = documents[i];
        let stays = match request {
            SceneBuilderRequest::DeleteDocument(gone) => !(d.namespace_id.0 == gone.namespace_id.0
                && d.id == gone.id),
            SceneBuilderRequest::ClearNamespace(id) => d.namespace_id.0 != id.0,
            _ => true,
        };
        proof {
            let before = documents@.take(i as int);
            assert(documents@.take(i + 1).drop_last() =~= before);
            assert(documents@.take(i + 1).last() == d);
        }
        if stays {
            kept.push(d);
        }
        i += 1;
    }
    assert(documents@.take(documents@.len() as int) =~= documents@);
    kept
}

impl SceneBuilderState {
    /// The documents are valid when none is there twice.
    pub open spec fn wf(&self) -> bool {
        self.documents@.no_duplicates()
    }

    /// The state of a scene builder that has seen no request.
    pub fn new() -> (r: SceneBuilderState)
        ensures
            r.wf(),
            r.documents@.len() == 0,
            r.simulate_slow_ms == 0,
    {
        SceneBuilderState { documents: Vec::new(), simulate_slow_ms: 0 }
    }

    /// Whether the document has a scene.
    pub fn has_document(&self, document_id: DocumentId) -> (r: bool)
        ensures
            r == self.documents@.contains(document_id),
    {
        let mut i: usize = 0;
        while i < self.documents.len()
            invariant
                i <= self.documents@.len(),
                forall|j: int| 0 <= j < i ==> self.documents@[j] != document_id,
            decreases self.documents@.len() - i,
        {
            let d = self.documents[i];
            if d.namespace_id.0 == document_id.namespace_id.0 && d.id == document_id.id {
                return true;
            }
            i += 1;
        }
        false
    }

    /// Takes a request: updates the state, and says what to do and whether
    /// to go on with the next request. Only a shutdown ends the loop.
    pub fn on_request(&mut self, request: SceneBuilderRequest) -> (r: (Reaction, bool))
        requires
            old(self).wf(),
        ensures
            final(self).wf(),
            r.0 == reaction_to(request),
            r.1 == !(request is ShutDown),
            final(self).documents@ == documents_after(old(self).documents@, request),
            final(self).simulate_slow_ms == (match request {
                SceneBuilderRequest::SimulateLongSceneBuild(time_ms) => time_ms,
                _ => old(self).simulate_slow_ms,
            }),
    {
        proof {
            lemma_kept_documents(self.documents@, request);
        }
        match request {
            SceneBuilderRequest::WakeUp => (Reaction::Idle, true),
            SceneBuilderRequest::Flush => (Reaction::Send(SceneBuilderResult::FlushComplete), true),
            SceneBuilderRequest::SetFlags => (Reaction::Store, true),
            SceneBuilderRequest::Transactions => (Reaction::BuildTransactions, true),
            SceneBuilderRequest::AddDocument(document_id) => {
                if !self.has_document(document_id) {
                    self.documents.push(document_id);
                    proof {
                        lemma_push_no_duplicates(old(self).documents@, document_id);
                    }
                }
                (Reaction::AddDocument(document_id), true)
            },
            SceneBuilderRequest::DeleteDocument(document_id) => {
                self.documents = retain_documents(&self.documents, request);
                (Reaction::Send(SceneBuilderResult::DeleteDocument(document_id)), true)
            },
            SceneBuilderRequest::ClearNamespace(id) => {
                self.documents = retain_documents(&self.documents, request);
                (Reaction::Send(SceneBuilderResult::ClearNamespace(id)), true)
            },
            SceneBuilderRequest::ExternalEvent => (
                Reaction::Send(SceneBuilderResult::ExternalEvent),
                true,
            ),
            SceneBuilderRequest::GetGlyphDimensions => (
                Reaction::Send(SceneBuilderResult::GetGlyphDimensions),
                true,
            ),
            SceneBuilderRequest::GetGlyphIndices => (
                Reaction::Send(SceneBuilderResult::GetGlyphIndices),
                true,
            ),
            SceneBuilderRequest::StopRenderBackend => (
                Reaction::Send(SceneBuilderResult::StopRenderBackend),
                true,
            ),
            SceneBuilderRequest::ShutDown => (Reaction::Send(SceneBuilderResult::ShutDown), false),
            SceneBuilderRequest::SimulateLongSceneBuild(time_ms) => {
                self.simulate_slow_ms = time_ms;
                (Reaction::Idle, true)
            },
            SceneBuilderRequest::ReportMemory => (Reaction::ReportMemory, true),
            SceneBuilderRequest::SetFrameBuilderConfig => (Reaction::Store, true),
            SceneBuilderRequest::SetParameter => (
                Reaction::Send(SceneBuilderResult::SetParameter),
                true,
            ),
        }
    }
}

/// What the low priority scene builder does with a request: it rasterizes
/// the blobs of transactions, hands every request on to the scene builder,
/// and goes on unless the request is a shutdown. Returns whether to
/// rasterize and whether to go on.
pub fn on_low_priority_request(request: SceneBuilderRequest) -> (r: (bool, bool))
    ensures
        r.0 == (request is Transactions),
        r.1 == !(request is ShutDown),
{
    match request {
        SceneBuilderRequest::Transactions => (true, true),
        SceneBuilderRequest::ShutDown => (false, false),
        _ => (false, true),
    }
}

/// Keeps the blobs that were rasterized for a transaction with those that
/// the transaction holds already. Where it holds none, the new list takes
/// the place of the empty one, allocation and all.
pub fn store_rasterized_blobs<T>(rasterized_blobs: &mut Vec<T>, new: Vec<T>)
    ensures
        final(rasterized_blobs)@ == old(rasterized_blobs)@ + new@,
{
    let mut new = new;
    if rasterized_blobs.is_empty() {
        assert(old(rasterized_blobs)@ + new@ =~= new@);
        *rasterized_blobs = new;
    } else {
        rasterized_blobs.append(&mut new);
    }
}

/// A message of a transaction to the scene, without what it carries for
/// others.
#[derive(Clone, Copy, Debug, PartialEq, Eq, Structural)]
pub enum SceneMsg {
    UpdateEpoch(PipelineId, Epoch),
    SetQualitySettings,
    SetDocumentView,
    SetDisplayList { epoch: Epoch, pipeline_id: PipelineId },
    RenderOffscreen(PipelineId),
    SetRootPipeline(PipelineId),
    RemovePipeline(PipelineId),
}

/// What the messages of a transaction have come to so far.
#[derive(Clone, Debug, PartialEq, Eq)]
pub struct TransactionProgress {
    /// The document of the transaction.
    pub document_id: DocumentId,
    /// Whether the scene must be built anew.
    pub rebuild_scene: bool,
    /// The pipelines that the transaction removed, with its document, in
    /// the order of the messages.
    pub removed_pipelines: Vec<(PipelineId, DocumentId)>,
}

/// Whether the transaction has removed the pipeline.
pub open spec fn was_removed(
    removed_pipelines: Seq<(PipelineId, DocumentId)>,
    pipeline_id: PipelineId,
) -> bool {
    exists|i: int| 0 <= i < removed_pipelines.len() && (#[trigger] removed_pipelines[i]).0
        == pipeline_id
}

/// Whether a message is applied to the scene. A display list for a
/// pipeline that the transaction has removed is dropped, and a root
/// pipeline that is the root already is not set again.
pub open spec fn applies(
    removed_pipelines: Seq<(PipelineId, DocumentId)>,
    root_pipeline_id: Option<PipelineId>,
    message: SceneMsg,
) -> bool {
    match message {
        SceneMsg::SetDisplayList { pipeline_id, .. } => !was_removed(
            removed_pipelines,
            pipeline_id,
        ),
        SceneMsg::SetRootPipeline(pipeline_id) => root_pipeline_id != Some(pipeline_id),
        _ => true,
    }
}

/// Whether a message that is applied asks for the scene to be built anew:
/// a display list does, and a new root pipeline.
pub open spec fn asks_rebuild(message: SceneMsg) -> bool {
    message is SetDisplayList || message is SetRootPipeline
}

impl TransactionProgress {
    /// The progress of a transaction of this document before its first
    /// message.
    pub fn new(document_id: DocumentId) -> (r: TransactionProgress)
        ensures
            r.document_id == document_id,
            !r.rebuild_scene,
            r.removed_pipelines@.len() == 0,
    {
        TransactionProgress { document_id, rebuild_scene: false, removed_pipelines: Vec::new() }
    }

    fn is_removed(&self, pipeline_id: PipelineId) -> (r: bool)
        ensures
            r == was_removed(self.removed_pipelines@, pipeline_id),
    {
        let mut i: usize = 0;
        while i < self.removed_pipelines.len()
            invariant
                i <= self.removed_pipelines@.len(),
                forall|j: int| 0 <= j < i ==> (#[trigger] self.removed_pipelines@[j]).0 != pipeline_id,
            decreases self.removed_pipelines@.len() - i,
        {
            let removed = self.removed_pipelines[i].0;
            if removed.0 == pipeline_id.0 && removed.1 == pipeline_id.1 {
                return true;
            }
            i += 1;
        }
        false
    }

    /// Takes the next message of the transaction, where `root_pipeline_id`
    /// is the root pipeline of the scene before the message. Says whether
    /// to apply the message to the scene.
    pub fn on_scene_msg(&mut self, root_pipeline_id: Option<PipelineId>, message: SceneMsg) -> (apply:
        bool)
        ensures
            apply == applies(old(self).removed_pipelines@, root_pipeline_id, message),
            final(self).document_id == old(self).document_id,
            final(self).rebuild_scene == (old(self).rebuild_scene || (apply && asks_rebuild(
                message,
            ))),
            final(self).removed_pipelines@ == (match message {
                SceneMsg::RemovePipeline(pipeline_id) => old(self).removed_pipelines@.push(
                    (pipeline_id, old(self).document_id),
                ),
                _ => old(self).removed_pipelines@,
            }),
    {
        match message {
            SceneMsg::SetDisplayList { epoch: _, pipeline_id } => {
                if self.is_removed(pipeline_id) {
                    return false;
                }
                self.rebuild_scene = true;
                true
            },
            SceneMsg::SetRootPipeline(pipeline_id) => {
                let same = match root_pipeline_id {
                    Some(root) => root.0 == pipeline_id.0 && root.1 == pipeline_id.1,
                    None => false,
                };
                if same {
                    return false;
                }
                self.rebuild_scene = true;
                true
            },
            SceneMsg::RemovePipeline(pipeline_id) => {
                self.removed_pipelines.push((pipeline_id, self.document_id));
                true
            },
            _ => true,
        }
    }

    /// After the last message: whether to build the scene, which takes a
    /// root pipeline and a message that asked for it.
    pub fn must_build(&self, has_root_pipeline: bool) -> (r: bool)
        ensures
            r == (has_root_pipeline && self.rebuild_scene),
    {
        has_root_pipeline && self.rebuild_scene
    }
}

/// What building a scene gives, as far as the scene builder reads it: the
/// epoch of each pipeline of the scene.
#[derive(Clone, Debug, PartialEq, Eq)]
pub struct BuiltScene {
    pub pipeline_epochs: Vec<(PipelineId, Epoch)>,
}

/// A scene that was built to be rendered off screen.
#[derive(Clone, Debug, PartialEq, Eq)]
pub struct OffscreenBuiltScene {
    pub scene: BuiltScene,
}

/// Represent the remaining work associated to a transaction after the scene
/// building phase as well as the result of scene building itself if
/// applicable.
#[derive(Clone, Debug, PartialEq, Eq)]
pub struct BuiltTransaction {
    pub document_id: DocumentId,
    pub built_scene: Option<BuiltScene>,
    pub offscreen_scenes: Vec<OffscreenBuiltScene>,
    /// The number of resource updates of the transaction.
    pub resource_updates: usize,
    pub removed_pipelines: Vec<(PipelineId, DocumentId)>,
    pub render_frame: bool,
    pub present: bool,
    /// Whether the frame of the transaction is followed through the
    /// pipeline.
    pub track: bool,
    pub invalidate_rendered_frame: bool,
}

/// What the embedder is told of a scene swap: the epoch of each pipeline of
/// each scene that was built, and the pipelines that were removed.
#[derive(Clone, Debug, PartialEq, Eq)]
pub struct PipelineInfo {
    pub epochs: Vec<((PipelineId, DocumentId), Epoch)>,
    pub removed_pipelines: Vec<(PipelineId, DocumentId)>,
}

/// How built transactions are forwarded.
#[derive(Clone, Debug, PartialEq, Eq)]
pub struct ForwardPlan {
    /// What to tell the embedder, if a scene was built and hooks are there:
    /// then the render backend is asked to report the swap.
    pub pipeline_info: Option<PipelineInfo>,
    /// The transaction whose build time is recorded: the first that built
    /// a scene, if the embedder is told.
    pub timed: Option<usize>,
    /// The documents of the transactions.
    pub document_ids: Vec<DocumentId>,
    /// If the embedder is not told of a swap: the documents whose
    /// transactions update resources or invalidate the rendered frame.
    pub have_resources_updates: Vec<DocumentId>,
    /// Whether no transaction renders a frame, so that the compositor
    /// should schedule one.
    pub compositor_should_schedule_a_frame: bool,
}

/// The first transaction that built a scene, if there is one.
pub open spec fn first_built(txns: Seq<BuiltTransaction>) -> Option<int>
    decreases txns.len(),
{
    if txns.len() == 0 {
        None
    } else {
        match first_built(txns.drop_last()) {
            Some(i) => Some(i),
            None => if txns.last().built_scene is Some {
                Some(txns.len() - 1)
            } else {
                None
            },
        }
    }
}

/// The epochs of the pipelines of one scene, each with its pipeline and
/// the document.
pub open spec fn scene_epochs(
    document_id: DocumentId,
    pipeline_epochs: Seq<(PipelineId, Epoch)>,
) -> Seq<((PipelineId, DocumentId), Epoch)> {
    Seq::new(
        pipeline_epochs.len(),
        |i: int| ((pipeline_epochs[i].0, document_id), pipeline_epochs[i].1),
    )
}

/// The epochs of the pipelines of the scenes that were built, transaction
/// by transaction.
pub open spec fn epochs_of(txns: Seq<BuiltTransaction>) -> Seq<((PipelineId, DocumentId), Epoch)>
    decreases txns.len(),
{
    if txns.len() == 0 {
        Seq::empty()
    } else {
        let last = txns.last();
        epochs_of(txns.drop_last()) + (match last.built_scene {
            Some(scene) => scene_epochs(last.document_id, scene.pipeline_epochs@),
            None => Seq::empty(),
        })
    }
}

/// The pipelines that the transactions removed, transaction by
/// transaction.
pub open spec fn removed_of(txns: Seq<BuiltTransaction>) -> Seq<(PipelineId, DocumentId)>
    decreases txns.len(),
{
    if txns.len() == 0 {
        Seq::empty()
    } else {
        removed_of(txns.drop_last()) + txns.last().removed_pipelines@
    }
}

/// Whether a transaction updates resources or invalidates the rendered
/// frame.
pub open spec fn updates_resources(txn: BuiltTransaction) -> bool {
    txn.resource_updates != 0 || txn.invalidate_rendered_frame
}

/// The documents of the transactions that update resources or invalidate
/// the rendered frame, in the order of the transactions.
pub open spec fn updated_documents(txns: Seq<BuiltTransaction>) -> Seq<DocumentId>
    decreases txns.len(),
{
    if txns.len() == 0 {
        Seq::empty()
    } else if updates_resources(txns.last()) {
        updated_documents(txns.drop_last()).push(txns.last().document_id)
    } else {
        updated_documents(txns.drop_last())
    }
}

/// The documents of the transactions, in their order.
pub open spec fn documents_of(txns: Seq<BuiltTransaction>) -> Seq<DocumentId> {
    Seq::new(txns.len(), |i: int| txns[i].document_id)
}

/// Whether no transaction renders a frame.
pub open spec fn none_renders(txns: Seq<BuiltTransaction>) -> bool {
    forall|i: int| 0 <= i < txns.len() ==> !(#[trigger] txns[i]).render_frame
}

/// The first transaction that built a scene is one that did, and none
/// before it did; there is none exactly when no transaction built a scene.
pub proof fn lemma_first_built(txns: Seq<BuiltTransaction>)
    ensures
        match first_built(txns) {
            Some(first) => {
                &&& 0 <= first < txns.len()
                &&& txns[first].built_scene is Some
                &&& forall|i: int| 0 <= i < first ==> (#[trigger] txns[i]).built_scene is None
            },
            None => forall|i: int| 0 <= i < txns.len() ==> (#[trigger] txns[i]).built_scene is None,
        },
    decreases txns.len(),
{
    if txns.len() > 0 {
        lemma_first_built(txns.drop_last());
        assert forall|i: int| 0 <= i < txns.len() - 1 implies txns[i] == txns.drop_last()[i] by {}
        match first_built(txns.drop_last()) {
            Some(first) => {
                assert(txns[first] == txns.drop_last()[first]);
                assert forall|i: int| 0 <= i < first implies (#[trigger] txns[i]).built_scene
                    is None by {
                    assert(txns[i] == txns.drop_last()[i]);
                }
            },
            None => {
                assert forall|i: int| 0 <= i < txns.len() - 1 implies (
                #[trigger] txns[i]).built_scene is None by {
                    assert(txns[i] == txns.drop_last()[i]);
                }
            },
        }
    }
}

/// Decides how to forward the transactions `txns`, built from one request.
/// `has_hooks` says whether the embedder has registered hooks.
///
/// With hooks and a scene built, the embedder is told of the swap: of the
/// epochs of all scenes built and of all pipelines removed. Else the
/// documents with resource updates are gathered for it.
pub fn plan_forward(txns: &Vec<BuiltTransaction>, has_hooks: bool) -> (plan: ForwardPlan)
    ensures
        plan.document_ids@ == documents_of(txns@),
        plan.compositor_should_schedule_a_frame == none_renders(txns@),
        plan.pipeline_info is Some <==> has_hooks && first_built(txns@) is Some,
        plan.pipeline_info matches Some(info) ==> {
            &&& info.epochs@ == epochs_of(txns@)
            &&& info.removed_pipelines@ == removed_of(txns@)
            &&& plan.timed matches Some(first)
            &&& first_built(txns@) == Some(first as int)
            &&& plan.have_resources_updates@.len() == 0
        },
        plan.pipeline_info is None ==> {
            &&& plan.timed is None
            &&& plan.have_resources_updates@ == updated_documents(txns@)
        },
{
    let mut first: Option<usize> = None;
    let mut epochs: Vec<((PipelineId, DocumentId), Epoch)> = Vec::new();
    let mut removed_pipelines: Vec<(PipelineId, DocumentId)> = Vec::new();
    let mut document_ids: Vec<DocumentId> = Vec::new();
    let mut updated: Vec<DocumentId> = Vec::new();
    let mut schedule = true;
    let mut i: usize = 0;
    proof {
        assert(txns@.take(0) =~= Seq::<BuiltTransaction>::empty());
    }
    while i < txns.len()
        invariant
            i <= txns@.len(),
            match first {
                Some(k) => first_built(txns@.take(i as int)) == Some(k as int),
                None => first_built(txns@.take(i as int)) is None,
            },
            epochs@ == epochs_of(txns@.take(i as int)),
            removed_pipelines@ == removed_of(txns@.take(i as int)),
            document_ids@ == documents_of(txns@.take(i as int)),
            updated@ == updated_documents(txns@.take(i as int)),
            schedule == none_renders(txns@.take(i as int)),
        decreases txns@.len() - i,
    {
        let txn = &txns[i];
        proof {
            let before = txns@.take(i as int);
            let now = txns@.take(i + 1);
            assert(now.drop_last() =~= before);
            assert(now.last() == *txn);
            assert(documents_of(now) =~= documents_of(before).push(txn.document_id));
            assert(none_renders(now) == (none_renders(before) && !txn.render_frame)) by {
                if none_renders(before) && !txn.render_frame {
                    assert forall|j: int| 0 <= j < now.len() implies !(#[trigger] now[j]).render_frame by {
                        if j < i {
                            assert(now[j] == before[j]);
                        }
                    }
                }
                if none_renders(now) {
                    assert(!now[i as int].render_frame);
                    assert forall|j: int| 0 <= j < before.len() implies !(
                    #[trigger] before[j]).render_frame by {
                        assert(before[j] == now[j]);
                    }
                }
            }
        }
        match &txn.built_scene {
            Some(scene) => {
                if first.is_none() {
                    first = Some(i);
                }
                let ghost start = epochs@;
                let mut k: usize = 0;
                while k < scene.pipeline_epochs.len()
                    invariant
                        k <= scene.pipeline_epochs@.len(),
                        epochs@ == start + scene_epochs(
                            txn.document_id,
                            scene.pipeline_epochs@,
                        ).take(k as int),
                    decreases scene.pipeline_epochs@.len() - k,
                {
                    let (pipeline_id, epoch) = scene.pipeline_epochs[k];
                    epochs.push(((pipeline_id, txn.document_id), epoch));
                    proof {
                        let all = scene_epochs(txn.document_id, scene.pipeline_epochs@);
                        assert(all.take(k + 1) =~= all.take(k as int).push(all[k as int]));
                    }
                    k += 1;
                }
                proof {
                    let all = scene_epochs(txn.document_id, scene.pipeline_epochs@);
                    assert(all.take(all.len() as int) =~= all);
                }
            },
            None => {
                assert(epochs@ + Seq::<((PipelineId, DocumentId), Epoch)>::empty() =~= epochs@);
            },
        }
        let ghost removed_start = removed_pipelines@;
        let mut k: usize = 0;
        while k < txn.removed_pipelines.len()
            invariant
                k <= txn.removed_pipelines@.len(),
                removed_pipelines@ == removed_start + txn.removed_pipelines@.take(k as int),
            decreases txn.removed_pipelines@.len() - k,
        {
            removed_pipelines.push(txn.removed_pipelines[k]);
            proof {
                let all = txn.removed_pipelines@;
                assert(all.take(k + 1) =~= all.take(k as int).push(all[k as int]));
            }
            k += 1;
        }
        proof {
            let all = txn.removed_pipelines@;
            assert(all.take(all.len() as int) =~= all);
        }
        document_ids.push(txn.document_id);
        if txn.resource_updates != 0 || txn.invalidate_rendered_frame {
            updated.push(txn.document_id);
        }
        if txn.render_frame {
            schedule = false;
        }
        i += 1;
    }
    proof {
        assert(txns@.take(txns@.len() as int) =~= txns@);
    }
    let pipeline_info = if has_hooks && first.is_some() {
        Some(PipelineInfo { epochs, removed_pipelines })
    } else {
        None
    };
    let told = pipeline_info.is_some();
    ForwardPlan {
        pipeline_info,
        timed: if told {
            first
        } else {
            None
        },
        document_ids,
        have_resources_updates: if told {
            Vec::new()
        } else {
            updated
        },
        compositor_should_schedule_a_frame: schedule,
    }
}

/// What the embedder is called for once the transactions are forwarded.
#[derive(Clone, Copy, Debug, PartialEq, Eq, Structural)]
pub enum Hook {
    /// The scenes were swapped; `resume` says whether the render backend
    /// waits to be resumed.
    PostSceneSwap { resume: bool },
    /// Resources were updated and no scene was built.
    PostResourceUpdate,
    /// Nothing was built or updated.
    PostEmptySceneBuild,
    /// There are no hooks to call.
    Nothing,
}

/// Decides which hook to call once the transactions are forwarded as
/// `plan` says. Where the embedder is told of a swap, `swap_result` is what
/// the render backend reported of it, or `None` if its channel closed.
pub fn after_forward(plan: &ForwardPlan, has_hooks: bool, swap_result: Option<SceneSwapResult>) -> (r:
    Hook)
    ensures
        r == (if plan.pipeline_info is Some {
            Hook::PostSceneSwap { resume: swap_result == Some(SceneSwapResult::Complete) }
        } else if !has_hooks {
            Hook::Nothing
        } else if plan.have_resources_updates@.len() != 0 {
            Hook::PostResourceUpdate
        } else {
            Hook::PostEmptySceneBuild
        }),
{
    if plan.pipeline_info.is_some() {
        let resume = match swap_result {
            Some(SceneSwapResult::Complete) => true,
            _ => false,
        };
        Hook::PostSceneSwap { resume }
    } else if plan.have_resources_updates.len() != 0 {
        if has_hooks {
            Hook::PostResourceUpdate
        } else {
            Hook::Nothing
        }
    } else if has_hooks {
        Hook::PostEmptySceneBuild
    } else {
        Hook::Nothing
    }
}

/// A sequence without duplicates stays so when something new is added.
pub proof fn lemma_push_no_duplicates<A>(s: Seq<A>, a: A)
    requires
        s.no_duplicates(),
        !s.contains(a),
    ensures
        s.push(a).no_duplicates(),
{
    assert forall|i: int, j: int|
        0 <= i < s.push(a).len() && 0 <= j < s.push(a).len() && i != j implies s.push(a)[i]
        != s.push(a)[j] by {
        if i < s.len() && j < s.len() {
        } else if i < s.len() {
            assert(s.contains(s[i]));
        } else {
            assert(s.contains(s[j]));
        }
    }
}

/// The documents that stay when a request is taken are those that the
/// request keeps, each once if each was there once; a request that removes
/// no document leaves them all.
pub proof fn lemma_kept_documents(documents: Seq<DocumentId>, request: SceneBuilderRequest)
    ensures
        forall|d: DocumentId| #[trigger]
            kept_documents(documents, request).contains(d) <==> documents.contains(d) && keeps(
                request,
                d,
            ),
        documents.no_duplicates() ==> kept_documents(documents, request).no_duplicates(),
        !(request is DeleteDocument) && !(request is ClearNamespace) ==> kept_documents(
            documents,
            request,
        ) == documents,
    decreases documents.len(),
{
    let kept = kept_documents(documents, request);
    if documents.len() > 0 {
        let front = documents.drop_last();
        let last = documents.last();
        let kept_front = kept_documents(front, request);
        lemma_kept_documents(front, request);
        assert forall|d: DocumentId| #[trigger]
            kept.contains(d) <==> documents.contains(d) && keeps(request, d) by {
            if kept.contains(d) {
                let i = choose|i: int| 0 <= i < kept.len() && kept[i] == d;
                if i < kept_front.len() {
                    assert(kept_front.contains(d));
                    let j = choose|j: int| 0 <= j < front.len() && front[j] == d;
                    assert(documents[j] == d);
                } else {
                    assert(documents[documents.len() - 1] == d);
                }
            }
            if documents.contains(d) && keeps(request, d) {
                let j = choose|j: int| 0 <= j < documents.len() && documents[j] == d;
                if j < front.len() {
                    assert(front[j] == d);
                    assert(front.contains(d));
                    assert(kept_front.contains(d));
                    let i = choose|i: int| 0 <= i < kept_front.len() && kept_front[i] == d;
                    assert(kept[i] == d);
                } else {
                    assert(kept[kept.len() - 1] == d);
                }
            }
        }
        if documents.no_duplicates() {
            assert(front.no_duplicates());
            if keeps(request, last) {
                if kept_front.contains(last) {
                    let j = choose|j: int| 0 <= j < front.len() && front[j] == last;
                    assert(documents[j] == documents[documents.len() - 1]);
                }
                lemma_push_no_duplicates(kept_front, last);
            }
        }
        if !(request is DeleteDocument) && !(request is ClearNamespace) {
            assert(front.push(last) =~= documents);
        }
    } else {
        assert(kept =~= documents);
    }
}

} // verus!
