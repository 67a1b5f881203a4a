use pdf_annotations::annotation::Annotation;
use pdf_annotations::annotation::AnnotationType;
use pdf_annotations::annotation::QuadPoints;
use pdf_annotations::annotation::Rect;
use pdf_annotations::highlight::HighlightAnnotation;
use pdf_annotations::text::TextAnnotation;
use pdf_annotations::text::TextAnnotationMarkedState;
use pdf_annotations::text::TextAnnotationReviewState;
use pdf_annotations::text::TextAnnotationStateModel;

fn scalar(v: f32) -> lopdf::Object {
    lopdf::Object::from(v)
}

fn unit_rect() -> Rect {
    Rect::new(scalar(0.0), scalar(0.0), scalar(1.0), scalar(1.0))
}

fn sample_quad() -> QuadPoints {
    QuadPoints::new(
        scalar(0.0),
        scalar(0.0),
        scalar(1.0),
        scalar(0.0),
        scalar(1.0),
        scalar(1.0),
        scalar(0.0),
        scalar(1.0),
    )
}

#[test]
fn text_text() {
    let annotation = Annotation::text(unit_rect())
        .contents("The quick brown fox ate the lazy mouse".into());

    let object: lopdf::Object = annotation.to_object();
    let debug = format!("{:?}", object);
    assert_eq!(
        "<</Type /Annot/Subtype /Text/Rect [0 0 1 1]/Contents /The quick brown fox ate the lazy mouse>>",
        debug
    );
}

#[test]
fn rect_converts_to_ordered_array() {
    let r = Rect::new(scalar(4.0), scalar(3.5), scalar(2.0), scalar(1.0));
    assert_eq!("[4 3.5 2 1]", format!("{:?}", r.to_object()));
}

#[test]
fn quad_points_convert_to_ordered_array() {
    let q = QuadPoints::new(
        scalar(8.0),
        scalar(7.0),
        scalar(6.0),
        scalar(5.0),
        scalar(4.0),
        scalar(3.0),
        scalar(2.0),
        scalar(1.5),
    );
    assert_eq!("[8 7 6 5 4 3 2 1.5]", format!("{:?}", q.to_object()));
}

#[test]
fn marked_state_model_converts() {
    let d = TextAnnotationStateModel::Marked(TextAnnotationMarkedState::Marked).to_dictionary();
    assert_eq!("<</StateModel /Marked/State /Marked>>", format!("{:?}", d));
}

#[test]
fn default_marked_state_converts() {
    let d = TextAnnotationStateModel::Marked(TextAnnotationMarkedState::default()).to_dictionary();
    assert_eq!("<</StateModel /Marked/State /Unmarked>>", format!("{:?}", d));
}

#[test]
fn review_state_models_convert() {
    let cases = [
        (TextAnnotationReviewState::Accepted, "Accepted"),
        (TextAnnotationReviewState::Rejected, "Rejected"),
        (TextAnnotationReviewState::Cancelled, "Cancelled"),
        (TextAnnotationReviewState::Completed, "Completed"),
        (TextAnnotationReviewState::NoneState, "None"),
    ];
    for (state, name) in cases {
        let d = TextAnnotationStateModel::Review(state).to_dictionary();
        assert_eq!(
            format!("<</StateModel /Review/State /{}>>", name),
            format!("{:?}", d)
        );
    }
}

#[test]
fn default_review_state_converts() {
    let d = TextAnnotationStateModel::Review(TextAnnotationReviewState::default()).to_dictionary();
    assert_eq!("<</StateModel /Review/State /None>>", format!("{:?}", d));
}

#[test]
fn highlight_dictionary_is_exactly_subtype_and_quad_points() {
    let d = HighlightAnnotation::new(sample_quad()).to_dictionary();
    assert_eq!(
        "<</Subtype /Highlight/QuadPoints [0 0 1 0 1 1 0 1]>>",
        format!("{:?}", d)
    );
}

#[test]
fn text_annotation_with_no_fields() {
    let d = TextAnnotation::new().to_dictionary();
    assert_eq!("<</Subtype /Text>>", format!("{:?}", d));
}

#[test]
fn text_annotation_with_open() {
    let d = TextAnnotation::new().open(true).to_dictionary();
    assert_eq!("<</Subtype /Text/Open true>>", format!("{:?}", d));
}

#[test]
fn text_annotation_with_name() {
    let d = TextAnnotation::new().name("Comment".into()).to_dictionary();
    assert_eq!("<</Subtype /Text/Name /Comment>>", format!("{:?}", d));
}

#[test]
fn text_annotation_with_state() {
    let d = TextAnnotation::new()
        .state(TextAnnotationStateModel::Marked(TextAnnotationMarkedState::Unmarked))
        .to_dictionary();
    assert_eq!(
        "<</Subtype /Text/StateModel /Marked/State /Unmarked>>",
        format!("{:?}", d)
    );
}

#[test]
fn text_annotation_with_all_fields() {
    let d = TextAnnotation::new()
        .open(false)
        .name("Note".into())
        .state(TextAnnotationStateModel::Review(TextAnnotationReviewState::Rejected))
        .to_dictionary();
    assert_eq!(
        "<</Subtype /Text/Open false/Name /Note/StateModel /Review/State /Rejected>>",
        format!("{:?}", d)
    );
}

#[test]
fn text_annotation_default_equals_new() {
    let a = format!("{:?}", TextAnnotation::default().to_dictionary());
    let b = format!("{:?}", TextAnnotation::new().to_dictionary());
    assert_eq!(a, b);
}

#[test]
fn text_annotation_end_to_end_with_fields() {
    let t = TextAnnotation::new().open(true).name("Help".into());
    let a = Annotation::new(
        AnnotationType::Text(t),
        Rect::new(scalar(1.0), scalar(2.0), scalar(3.0), scalar(4.0)),
    );
    assert_eq!(
        "<</Type /Annot/Subtype /Text/Open true/Name /Help/Rect [1 2 3 4]>>",
        format!("{:?}", a.to_object())
    );
}

#[test]
fn highlight_annotation_end_to_end_without_contents() {
    let a = Annotation::new(
        AnnotationType::Highlight(HighlightAnnotation::new(sample_quad())),
        unit_rect(),
    );
    assert_eq!(
        "<</Type /Annot/Subtype /Highlight/QuadPoints [0 0 1 0 1 1 0 1]/Rect [0 0 1 1]>>",
        format!("{:?}", a.to_object())
    );
}

#[test]
fn converting_twice_yields_identical_output() {
    let a = Annotation::text(unit_rect()).contents("twice".into());
    let first = format!("{:?}", a.to_object());
    let second = format!("{:?}", a.to_object());
    assert_eq!(first, second);
}
