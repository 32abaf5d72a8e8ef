use browser_core::metrics::{glean_to_chrono_datetime, Datetime, Instant, LocalDatetime};
use browser_core::scene_builder::{
    after_forward, on_low_priority_request, plan_forward, store_rasterized_blobs, BuiltScene,
    BuiltTransaction,
    DocumentId, Epoch, ForwardPlan, Hook, IdNamespace, PipelineId, PipelineInfo, Reaction,
    SceneBuilderRequest, SceneBuilderResult, SceneBuilderState, SceneMsg, SceneSwapResult,
    TransactionProgress,
};
use browser_core::selector::{
    is_enabled_in_content, is_pseudo_class_enabled, is_pseudo_element_enabled, ElementState,
    HeadingSelectorData, NonTSPseudoClassFlag, PseudoClassEnabling, PseudoClassPrefs,
    PseudoElementEnabling, SheetContext,
};
use selectors::parser::AnPlusB;
use thin_vec::ThinVec;

// ---- dates ----

fn datetime(offset_seconds: i32) -> Datetime {
    Datetime {
        year: 2024,
        month: 2,
        day: 29,
        hour: 12,
        minute: 30,
        second: 15,
        nanosecond: 500,
        offset_seconds,
    }
}

#[test]
fn datetime_with_an_offset_out_of_range() {
    assert_eq!(glean_to_chrono_datetime(&datetime(86_400)), None);
    assert_eq!(glean_to_chrono_datetime(&datetime(-86_400)), None);
    assert_eq!(glean_to_chrono_datetime(&datetime(i32::MAX)), None);
    assert!(glean_to_chrono_datetime(&datetime(86_399)).is_some());
    assert!(glean_to_chrono_datetime(&datetime(-86_399)).is_some());
}

#[test]
fn datetime_is_a_point_in_time() {
    // 2024-02-29T12:30:15 UTC is 1709209815 seconds after the epoch.
    assert_eq!(
        glean_to_chrono_datetime(&datetime(0)),
        Some(LocalDatetime::Single(Instant {
            timestamp: 1_709_209_815,
            nanosecond: 500,
            offset_seconds: 0
        }))
    );
    // One hour east of UTC the same clock shows an instant one hour earlier.
    assert_eq!(
        glean_to_chrono_datetime(&datetime(3600)),
        Some(LocalDatetime::Single(Instant {
            timestamp: 1_709_209_815 - 3600,
            nanosecond: 500,
            offset_seconds: 3600
        }))
    );
}

#[test]
fn datetime_that_the_calendar_does_not_have() {
    let mut gdt = datetime(0);
    gdt.year = 2023;
    assert_eq!(glean_to_chrono_datetime(&gdt), Some(LocalDatetime::Invalid));
    let mut gdt = datetime(0);
    gdt.month = 13;
    assert_eq!(glean_to_chrono_datetime(&gdt), Some(LocalDatetime::Invalid));
    let mut gdt = datetime(0);
    gdt.hour = 24;
    assert_eq!(glean_to_chrono_datetime(&gdt), Some(LocalDatetime::Invalid));
}

// ---- headings ----

fn heading(levels: &[(i32, i32)]) -> HeadingSelectorData {
    let mut list = ThinVec::new();
    for (a, b) in levels {
        list.push(AnPlusB(*a, *b));
    }
    HeadingSelectorData(list)
}

fn level(n: u64) -> ElementState {
    ElementState { bits: (n << 57) | 0x1ff }
}

#[test]
fn heading_level_bits() {
    assert_eq!(ElementState::HEADING_LEVEL_OFFSET, 57);
    assert_eq!(ElementState::HEADING_LEVEL_BITS, 0b1111u64 << 57);
    assert_eq!(ElementState::HEADING_LEVEL_BITS, stylo_dom::ElementState::HEADING_LEVEL_BITS.bits());
    assert_eq!(ElementState::HEADING_LEVEL_OFFSET as usize, stylo_dom::HEADING_LEVEL_OFFSET);
}

#[test]
fn heading_without_levels_matches_any_heading() {
    let any = heading(&[]);
    assert!(!any.matches_state(ElementState { bits: 0 }));
    assert!(!any.matches_state(ElementState { bits: 0x1ff }));
    for n in 1..16 {
        assert!(any.matches_state(level(n)));
    }
}

#[test]
fn heading_with_levels_matches_them() {
    let two = heading(&[(0, 2)]);
    for n in 0..16 {
        assert_eq!(two.matches_state(level(n)), n == 2);
    }
    let odd_or_four = heading(&[(2, 1), (0, 4)]);
    for n in 0..16 {
        assert_eq!(odd_or_four.matches_state(level(n)), n != 0 && (n % 2 == 1 || n == 4));
    }
    // -n + 3 gives 3, 2, 1.
    let up_to_three = heading(&[(-1, 3)]);
    for n in 0..16 {
        assert_eq!(up_to_three.matches_state(level(n)), (1..=3).contains(&n));
    }
    // An expression that overflows 32 bits matches nothing.
    let far = heading(&[(1, i32::MIN)]);
    for n in 0..16 {
        assert!(!far.matches_state(level(n)));
    }
}

// ---- pseudo-classes and pseudo-elements ----

const PREFS_OFF: PseudoClassPrefs = PseudoClassPrefs {
    view_transitions_enabled: false,
    heading_selector_enabled: false,
    moz_broken_content_enabled: false,
};

fn class(bits: u8) -> PseudoClassEnabling {
    PseudoClassEnabling {
        flags: NonTSPseudoClassFlag { bits },
        is_active_view_transition: false,
        is_heading: false,
        is_moz_broken: false,
    }
}

fn sheet(in_user_agent_stylesheet: bool, chrome_rules_enabled: bool) -> SheetContext {
    SheetContext { in_user_agent_stylesheet, chrome_rules_enabled }
}

#[test]
fn pseudo_class_flags() {
    assert_eq!(NonTSPseudoClassFlag::PSEUDO_CLASS_ENABLED_IN_UA_SHEETS, 1);
    assert_eq!(NonTSPseudoClassFlag::PSEUDO_CLASS_ENABLED_IN_CHROME, 2);
    assert_eq!(NonTSPseudoClassFlag::PSEUDO_CLASS_ENABLED_IN_UA_SHEETS_AND_CHROME, 3);
    assert!(NonTSPseudoClassFlag { bits: 1 }.intersects(3));
    assert!(!NonTSPseudoClassFlag { bits: 1 }.intersects(2));
    assert!(!NonTSPseudoClassFlag { bits: 0 }.intersects(3));
}

#[test]
fn pseudo_class_enabled_in_content() {
    assert!(is_enabled_in_content(class(0), PREFS_OFF));
    for bits in 1..4 {
        assert!(!is_enabled_in_content(class(bits), PREFS_OFF));
    }
    let heading = PseudoClassEnabling { is_heading: true, ..class(0) };
    assert!(!is_enabled_in_content(heading, PREFS_OFF));
    assert!(is_enabled_in_content(
        heading,
        PseudoClassPrefs { heading_selector_enabled: true, ..PREFS_OFF }
    ));
    let transition = PseudoClassEnabling { is_active_view_transition: true, ..class(0) };
    assert!(!is_enabled_in_content(transition, PREFS_OFF));
    assert!(is_enabled_in_content(
        transition,
        PseudoClassPrefs { view_transitions_enabled: true, ..PREFS_OFF }
    ));
}

#[test]
fn pseudo_class_enabled_by_sheet() {
    for ua in [false, true] {
        for chrome in [false, true] {
            assert!(is_pseudo_class_enabled(sheet(ua, chrome), class(0), PREFS_OFF));
            assert_eq!(is_pseudo_class_enabled(sheet(ua, chrome), class(1), PREFS_OFF), ua);
            assert_eq!(is_pseudo_class_enabled(sheet(ua, chrome), class(2), PREFS_OFF), chrome);
            assert_eq!(
                is_pseudo_class_enabled(sheet(ua, chrome), class(3), PREFS_OFF),
                ua || chrome
            );
        }
    }
    let broken = PseudoClassEnabling { is_moz_broken: true, ..class(3) };
    assert!(!is_pseudo_class_enabled(sheet(false, false), broken, PREFS_OFF));
    assert!(is_pseudo_class_enabled(
        sheet(false, false),
        broken,
        PseudoClassPrefs { moz_broken_content_enabled: true, ..PREFS_OFF }
    ));
    // A heading that the preference switches off stays off everywhere.
    let heading = PseudoClassEnabling { is_heading: true, ..class(0) };
    assert!(!is_pseudo_class_enabled(sheet(true, true), heading, PREFS_OFF));
}

#[test]
fn pseudo_element_enabled_by_sheet() {
    let element = |in_content, in_ua_sheets, in_chrome| PseudoElementEnabling {
        in_content,
        in_ua_sheets,
        in_chrome,
    };
    assert!(is_pseudo_element_enabled(sheet(false, false), element(true, false, false)));
    assert!(!is_pseudo_element_enabled(sheet(false, false), element(false, true, true)));
    assert!(is_pseudo_element_enabled(sheet(true, false), element(false, true, false)));
    assert!(!is_pseudo_element_enabled(sheet(true, false), element(false, false, true)));
    assert!(is_pseudo_element_enabled(sheet(false, true), element(false, false, true)));
    assert!(!is_pseudo_element_enabled(sheet(true, true), element(false, false, false)));
}

// ---- the scene builder ----

fn doc(namespace: u32, id: u32) -> DocumentId {
    DocumentId { namespace_id: IdNamespace(namespace), id }
}

#[test]
fn requests_and_their_answers() {
    let mut state = SceneBuilderState::new();
    let cases = [
        (SceneBuilderRequest::WakeUp, Reaction::Idle),
        (SceneBuilderRequest::Flush, Reaction::Send(SceneBuilderResult::FlushComplete)),
        (SceneBuilderRequest::SetFlags, Reaction::Store),
        (SceneBuilderRequest::Transactions, Reaction::BuildTransactions),
        (SceneBuilderRequest::AddDocument(doc(1, 1)), Reaction::AddDocument(doc(1, 1))),
        (
            SceneBuilderRequest::DeleteDocument(doc(1, 1)),
            Reaction::Send(SceneBuilderResult::DeleteDocument(doc(1, 1))),
        ),
        (
            SceneBuilderRequest::ClearNamespace(IdNamespace(1)),
            Reaction::Send(SceneBuilderResult::ClearNamespace(IdNamespace(1))),
        ),
        (SceneBuilderRequest::ExternalEvent, Reaction::Send(SceneBuilderResult::ExternalEvent)),
        (
            SceneBuilderRequest::GetGlyphDimensions,
            Reaction::Send(SceneBuilderResult::GetGlyphDimensions),
        ),
        (
            SceneBuilderRequest::GetGlyphIndices,
            Reaction::Send(SceneBuilderResult::GetGlyphIndices),
        ),
        (
            SceneBuilderRequest::StopRenderBackend,
            Reaction::Send(SceneBuilderResult::StopRenderBackend),
        ),
        (SceneBuilderRequest::SimulateLongSceneBuild(5), Reaction::Idle),
        (SceneBuilderRequest::ReportMemory, Reaction::ReportMemory),
        (SceneBuilderRequest::SetFrameBuilderConfig, Reaction::Store),
        (SceneBuilderRequest::SetParameter, Reaction::Send(SceneBuilderResult::SetParameter)),
    ];
    for (request, reaction) in cases {
        assert_eq!(state.on_request(request), (reaction, true));
    }
    assert_eq!(
        state.on_request(SceneBuilderRequest::ShutDown),
        (Reaction::Send(SceneBuilderResult::ShutDown), false)
    );
}

#[test]
fn requests_change_the_documents() {
    let mut state = SceneBuilderState::new();
    for d in [doc(1, 1), doc(1, 2), doc(2, 1), doc(1, 1), doc(3, 7)] {
        state.on_request(SceneBuilderRequest::AddDocument(d));
    }
    assert_eq!(state.documents, vec![doc(1, 1), doc(1, 2), doc(2, 1), doc(3, 7)]);
    assert!(state.has_document(doc(2, 1)));
    assert!(!state.has_document(doc(2, 2)));
    state.on_request(SceneBuilderRequest::DeleteDocument(doc(2, 1)));
    assert_eq!(state.documents, vec![doc(1, 1), doc(1, 2), doc(3, 7)]);
    state.on_request(SceneBuilderRequest::DeleteDocument(doc(9, 9)));
    assert_eq!(state.documents, vec![doc(1, 1), doc(1, 2), doc(3, 7)]);
    state.on_request(SceneBuilderRequest::ClearNamespace(IdNamespace(1)));
    assert_eq!(state.documents, vec![doc(3, 7)]);
    assert_eq!(state.simulate_slow_ms, 0);
    state.on_request(SceneBuilderRequest::SimulateLongSceneBuild(250));
    assert_eq!(state.simulate_slow_ms, 250);
    state.on_request(SceneBuilderRequest::Transactions);
    assert_eq!(state.simulate_slow_ms, 250);
    assert_eq!(state.documents, vec![doc(3, 7)]);
}

#[test]
fn low_priority_requests() {
    assert_eq!(on_low_priority_request(SceneBuilderRequest::Transactions), (true, true));
    assert_eq!(on_low_priority_request(SceneBuilderRequest::ShutDown), (false, false));
    assert_eq!(on_low_priority_request(SceneBuilderRequest::Flush), (false, true));
    assert_eq!(on_low_priority_request(SceneBuilderRequest::WakeUp), (false, true));
}

#[test]
fn scene_messages_of_a_transaction() {
    let p = PipelineId(1, 1);
    let q = PipelineId(1, 2);
    let display_list = |pipeline_id| SceneMsg::SetDisplayList { epoch: Epoch(1), pipeline_id };
    let mut progress = TransactionProgress::new(doc(1, 1));
    assert!(!progress.must_build(true));
    assert!(progress.on_scene_msg(None, SceneMsg::UpdateEpoch(p, Epoch(2))));
    assert!(progress.on_scene_msg(None, SceneMsg::SetQualitySettings));
    assert!(progress.on_scene_msg(None, SceneMsg::SetDocumentView));
    assert!(progress.on_scene_msg(None, SceneMsg::RenderOffscreen(p)));
    assert!(!progress.rebuild_scene);
    // The root that is set already is left alone.
    assert!(!progress.on_scene_msg(Some(p), SceneMsg::SetRootPipeline(p)));
    assert!(!progress.rebuild_scene);
    assert!(progress.on_scene_msg(Some(p), SceneMsg::SetRootPipeline(q)));
    assert!(progress.rebuild_scene);
    assert!(progress.must_build(true));
    assert!(!progress.must_build(false));

    let mut progress = TransactionProgress::new(doc(1, 1));
    assert!(progress.on_scene_msg(None, SceneMsg::RemovePipeline(p)));
    assert!(!progress.rebuild_scene);
    // The display list of a removed pipeline is dropped.
    assert!(!progress.on_scene_msg(None, display_list(p)));
    assert!(!progress.rebuild_scene);
    assert!(progress.on_scene_msg(None, display_list(q)));
    assert!(progress.rebuild_scene);
    assert!(progress.on_scene_msg(None, SceneMsg::RemovePipeline(q)));
    assert_eq!(progress.removed_pipelines, vec![(p, doc(1, 1)), (q, doc(1, 1))]);
    assert_eq!(progress.document_id, doc(1, 1));
}

fn txn(document_id: DocumentId) -> BuiltTransaction {
    BuiltTransaction {
        document_id,
        built_scene: None,
        offscreen_scenes: Vec::new(),
        resource_updates: 0,
        removed_pipelines: Vec::new(),
        render_frame: false,
        present: true,
        track: false,
        invalidate_rendered_frame: false,
    }
}

#[test]
fn forward_nothing() {
    let plan = plan_forward(&Vec::new(), true);
    assert_eq!(
        plan,
        ForwardPlan {
            pipeline_info: None,
            timed: None,
            document_ids: vec![],
            have_resources_updates: vec![],
            compositor_should_schedule_a_frame: true,
        }
    );
    assert_eq!(after_forward(&plan, true, None), Hook::PostEmptySceneBuild);
    assert_eq!(after_forward(&plan, false, None), Hook::Nothing);
}

#[test]
fn forward_built_scenes() {
    let p = PipelineId(1, 1);
    let q = PipelineId(1, 2);
    let first = BuiltTransaction {
        resource_updates: 3,
        removed_pipelines: vec![(q, doc(1, 1))],
        ..txn(doc(1, 1))
    };
    let second = BuiltTransaction {
        built_scene: Some(BuiltScene { pipeline_epochs: vec![(p, Epoch(4)), (q, Epoch(5))] }),
        render_frame: true,
        ..txn(doc(1, 2))
    };
    let third = BuiltTransaction {
        built_scene: Some(BuiltScene { pipeline_epochs: vec![(p, Epoch(6))] }),
        removed_pipelines: vec![(p, doc(1, 3)), (q, doc(1, 3))],
        ..txn(doc(1, 3))
    };
    let txns = vec![first, second, third];
    let plan = plan_forward(&txns, true);
    assert_eq!(
        plan,
        ForwardPlan {
            pipeline_info: Some(PipelineInfo {
                epochs: vec![
                    ((p, doc(1, 2)), Epoch(4)),
                    ((q, doc(1, 2)), Epoch(5)),
                    ((p, doc(1, 3)), Epoch(6)),
                ],
                removed_pipelines: vec![(q, doc(1, 1)), (p, doc(1, 3)), (q, doc(1, 3))],
            }),
            timed: Some(1),
            document_ids: vec![doc(1, 1), doc(1, 2), doc(1, 3)],
            have_resources_updates: vec![],
            compositor_should_schedule_a_frame: false,
        }
    );
    assert_eq!(
        after_forward(&plan, true, Some(SceneSwapResult::Complete)),
        Hook::PostSceneSwap { resume: true }
    );
    assert_eq!(
        after_forward(&plan, true, Some(SceneSwapResult::Aborted)),
        Hook::PostSceneSwap { resume: false }
    );
    assert_eq!(after_forward(&plan, true, None), Hook::PostSceneSwap { resume: false });
    // Without hooks nobody is told of the swap.
    let plan = plan_forward(&txns, false);
    assert_eq!(plan.pipeline_info, None);
    assert_eq!(plan.timed, None);
    assert_eq!(plan.have_resources_updates, vec![doc(1, 1)]);
    assert!(!plan.compositor_should_schedule_a_frame);
    assert_eq!(after_forward(&plan, false, None), Hook::Nothing);
}

#[test]
fn forward_resource_updates() {
    let txns = vec![
        txn(doc(1, 1)),
        BuiltTransaction { resource_updates: 1, ..txn(doc(1, 2)) },
        BuiltTransaction { invalidate_rendered_frame: true, ..txn(doc(1, 3)) },
    ];
    let plan = plan_forward(&txns, true);
    assert_eq!(plan.pipeline_info, None);
    assert_eq!(plan.have_resources_updates, vec![doc(1, 2), doc(1, 3)]);
    assert_eq!(plan.document_ids, vec![doc(1, 1), doc(1, 2), doc(1, 3)]);
    assert!(plan.compositor_should_schedule_a_frame);
    assert_eq!(after_forward(&plan, true, None), Hook::PostResourceUpdate);
    assert_eq!(after_forward(&plan, false, None), Hook::Nothing);
}

#[test]
fn rasterized_blobs_are_kept_in_order() {
    let mut blobs: Vec<u32> = Vec::new();
    store_rasterized_blobs(&mut blobs, vec![1, 2]);
    assert_eq!(blobs, vec![1, 2]);
    store_rasterized_blobs(&mut blobs, vec![3]);
    assert_eq!(blobs, vec![1, 2, 3]);
    store_rasterized_blobs(&mut blobs, vec![]);
    assert_eq!(blobs, vec![1, 2, 3]);
}
