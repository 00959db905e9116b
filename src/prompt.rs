use vstd::prelude::*;

verus! {

/// The four shapes of interactive request.
#[derive(Debug, Clone, Copy, PartialEq, Eq, Structural)]
pub enum PromptKind {
    Text,
    Confirm,
    Select,
    MultiSelect,
}

/// The configuration of one interactive request.
#[derive(Debug, Clone, PartialEq, Eq)]
pub struct PromptOptions {
    pub kind: PromptKind,
    pub text: Option<String>,
    pub default_string: Option<String>,
    pub default_bool: Option<bool>,
    pub options: Option<Vec<String>>,
}

/// The outcome of one interactive request. Positions are 1-based.
#[derive(Debug, Clone, PartialEq, Eq)]
pub enum PromptResult {
    String(String),
    Boolean(bool),
    Index(usize),
    Indices(Vec<usize>),
    /// The user cancelled.
    Cancelled,
}

/// Why a request could not be made.
#[derive(Debug, Clone, Copy, PartialEq, Eq, Structural)]
pub enum PromptError {
    /// The kind's name is none of `text`, `confirm`, `select`, `multiselect`.
    UnknownKind,
    /// A confirmation was asked for without a text.
    MissingText,
    /// A choice was asked for without the labels to choose from.
    MissingOptions,
    /// The facility handed back an answer of another shape than the request, or a
    /// position outside its labels, or positions out of order.
    UnexpectedAnswer,
}

/// A request that is ready to be shown by the terminal facility.
#[derive(Debug, Clone, PartialEq, Eq)]
pub enum PromptRequest {
    /// A free-form line, which may be left empty, pre-filled with `initial`.
    Text { prompt: String, initial: String },
    /// A yes/no question, whose answer defaults to `default` where one is given.
    Confirm { prompt: String, default: Option<bool> },
    /// A single choice among `items`, which the user may cancel.
    Select { prompt: String, items: Vec<String> },
    /// Any number of choices among `items`, which the user may cancel.
    MultiSelect { prompt: String, items: Vec<String> },
}

/// What the terminal facility handed back, with its positions 0-based.
#[derive(Debug, Clone, PartialEq, Eq)]
pub enum FacilityAnswer {
    Text(String),
    Confirmed(bool),
    /// The chosen position, or `None` where the user cancelled.
    Chosen(Option<usize>),
    /// The chosen positions in ascending order, or `None` where the user cancelled.
    ChosenMany(Option<Vec<usize>>),
}

/// The kind that a name denotes.
pub open spec fn prompt_kind_of_name(s: Seq<char>) -> Option<PromptKind> {
    if s == "text"@ {
        Some(PromptKind::Text)
    } else if s == "confirm"@ {
        Some(PromptKind::Confirm)
    } else if s == "select"@ {
        Some(PromptKind::Select)
    } else if s == "multiselect"@ {
        Some(PromptKind::MultiSelect)
    } else {
        None
    }
}

/// The text of an optional string, empty where there is none.
pub open spec fn text_or_empty(s: Option<String>) -> Seq<char> {
    match s {
        Some(t) => t@,
        None => Seq::empty(),
    }
}

fn same_text(a: &str, b: &str) -> (r: bool)
    ensures
        r == (a@ == b@),
{
    let x = a.to_owned();
    let y = b.to_owned();
    x == y
}

fn owned_or_empty(s: Option<String>) -> (r: String)
    ensures
        r@ == text_or_empty(s),
{
    match s {
        Some(t) => t,
        None => String::new(),
    }
}

impl PromptKind {
    /// The kind named by `name`; where no name is given the request is a text prompt.
    pub fn from_name(name: Option<&str>) -> (r: Result<PromptKind, PromptError>)
        ensures
            match name {
                None => r == Ok::<PromptKind, PromptError>(PromptKind::Text),
                Some(n) => match prompt_kind_of_name(n@) {
                    Some(k) => r == Ok::<PromptKind, PromptError>(k),
                    None => r == Err::<PromptKind, PromptError>(PromptError::UnknownKind),
                },
            },
    {
        match name {
            None => Ok(PromptKind::Text),
            Some(n) => {
                if same_text(n, "text") {
                    Ok(PromptKind::Text)
                } else if same_text(n, "confirm") {
                    Ok(PromptKind::Confirm)
                } else if same_text(n, "select") {
                    Ok(PromptKind::Select)
                } else if same_text(n, "multiselect") {
                    Ok(PromptKind::MultiSelect)
                } else {
                    Err(PromptError::UnknownKind)
                }
            },
        }
    }
}

/// Turns a request's options into what the terminal facility shows. A confirmation
/// needs its text, a choice its labels; the other fields are optional.
pub fn plan(options: PromptOptions) -> (r: Result<PromptRequest, PromptError>)
    ensures
        match options.kind {
            PromptKind::Text => match r {
                Ok(PromptRequest::Text { prompt, initial }) => prompt@ == text_or_empty(options.text)
                    && initial@ == text_or_empty(options.default_string),
                _ => false,
            },
            PromptKind::Confirm => match options.text {
                None => r == Err::<PromptRequest, PromptError>(PromptError::MissingText),
                Some(t) => match r {
                    Ok(PromptRequest::Confirm { prompt, default }) => prompt@ == t@
                        && default == options.default_bool,
                    _ => false,
                },
            },
            PromptKind::Select => match options.options {
                None => r == Err::<PromptRequest, PromptError>(PromptError::MissingOptions),
                Some(labels) => match r {
                    Ok(PromptRequest::Select { prompt, items }) => prompt@ == text_or_empty(options.text)
                        && items@ == labels@,
                    _ => false,
                },
            },
            PromptKind::MultiSelect => match options.options {
                None => r == Err::<PromptRequest, PromptError>(PromptError::MissingOptions),
                Some(labels) => match r {
                    Ok(PromptRequest::MultiSelect { prompt, items }) => prompt@ == text_or_empty(options.text)
                        && items@ == labels@,
                    _ => false,
                },
            },
        },
{
    match options.kind {
        PromptKind::Text => Ok(PromptRequest::Text {
            prompt: owned_or_empty(options.text),
            initial: owned_or_empty(options.default_string),
        }),
        PromptKind::Confirm => match options.text {
            None => Err(PromptError::MissingText),
            Some(t) => Ok(PromptRequest::Confirm { prompt: t, default: options.default_bool }),
        },
        PromptKind::Select => match options.options {
            None => Err(PromptError::MissingOptions),
            Some(labels) => Ok(PromptRequest::Select { prompt: owned_or_empty(options.text), items: labels }),
        },
        PromptKind::MultiSelect => match options.options {
            None => Err(PromptError::MissingOptions),
            Some(labels) => Ok(PromptRequest::MultiSelect { prompt: owned_or_empty(options.text), items: labels }),
        },
    }
}

/// Positions that are strictly ascending, each below `n`.
pub open spec fn ascending_below(v: Seq<usize>, n: nat) -> bool {
    &&& forall|i: int| 0 <= i < v.len() ==> #[trigger] v[i] < n
    &&& forall|i: int, j: int| 0 <= i < j < v.len() ==> v[i] < v[j]
}

/// The facility's answer can stand for a request over `n` labels: a chosen position
/// names one of them, and chosen positions ascend.
pub open spec fn answer_fits(a: FacilityAnswer, n: nat) -> bool {
    match a {
        FacilityAnswer::Chosen(Some(i)) => i < n,
        FacilityAnswer::ChosenMany(Some(v)) => ascending_below(v@, n),
        _ => true,
    }
}

/// The result that stands for a facility answer: text and flags as they are,
/// positions 1-based, a cancellation as `Cancelled`.
pub open spec fn result_matches(a: FacilityAnswer, r: PromptResult) -> bool {
    match a {
        FacilityAnswer::Text(t) => r matches PromptResult::String(s) && s@ == t@,
        FacilityAnswer::Confirmed(b) => r == PromptResult::Boolean(b),
        FacilityAnswer::Chosen(None) => r is Cancelled,
        FacilityAnswer::Chosen(Some(i)) => r matches PromptResult::Index(k) && k == i + 1,
        FacilityAnswer::ChosenMany(None) => r is Cancelled,
        FacilityAnswer::ChosenMany(Some(v)) => r matches PromptResult::Indices(w)
            && w@.len() == v@.len()
            && forall|j: int| 0 <= j < v@.len() ==> #[trigger] w@[j] == v@[j] + 1,
    }
}

impl FacilityAnswer {
    /// Whether the answer can stand for a request over `n` labels.
    pub fn fits(&self, n: usize) -> (r: bool)
        ensures
            r == answer_fits(*self, n as nat),
    {
        match self {
            FacilityAnswer::Chosen(Some(i)) => *i < n,
            FacilityAnswer::ChosenMany(Some(v)) => {
                let mut k: usize = 0;
                while k < v.len()
                    invariant
                        k <= v@.len(),
                        answer_fits(*self, n as nat) == ascending_below(v@, n as nat),
                        forall|i: int| 0 <= i < k ==> #[trigger] v@[i] < n,
                        forall|i: int, j: int| 0 <= i < j < k ==> v@[i] < v@[j],
                    decreases v@.len() - k,
                {
                    if v[k] >= n {
                        proof {
                            assert(!(v@[k as int] < n));
                            assert(!ascending_below(v@, n as nat));
                        }
                        return false;
                    }
                    if k > 0 && v[k - 1] >= v[k] {
                        proof {
                            let p: int = k - 1;
                            assert(!(v@[p] < v@[k as int]));
                            assert(!ascending_below(v@, n as nat));
                        }
                        return false;
                    }
                    proof {
                        assert forall|i: int, j: int| 0 <= i < j < k + 1 implies v@[i] < v@[j] by {
                            if j < k {
                            } else if i < k - 1 {
                                assert(v@[i] < v@[k - 1]);
                            }
                        }
                    }
                    k = k + 1;
                }
                true
            },
            _ => true,
        }
    }
}

/// Turns what the facility handed back into the request's result: positions move
/// from 0-based to 1-based, once, and keep their order.
pub fn translate(answer: FacilityAnswer, n: usize) -> (r: PromptResult)
    requires
        answer_fits(answer, n as nat),
    ensures
        result_matches(answer, r),
{
    match answer {
        FacilityAnswer::Text(t) => PromptResult::String(t),
        FacilityAnswer::Confirmed(b) => PromptResult::Boolean(b),
        FacilityAnswer::Chosen(None) => PromptResult::Cancelled,
        FacilityAnswer::Chosen(Some(i)) => PromptResult::Index(i + 1),
        FacilityAnswer::ChosenMany(None) => PromptResult::Cancelled,
        FacilityAnswer::ChosenMany(Some(v)) => {
            let mut w: Vec<usize> = Vec::new();
            let mut k: usize = 0;
            while k < v.len()
                invariant
                    k <= v@.len(),
                    w@.len() == k,
                    ascending_below(v@, n as nat),
                    forall|j: int| 0 <= j < k ==> #[trigger] w@[j] == v@[j] + 1,
                decreases v@.len() - k,
            {
                assert(v@[k as int] < n);
                w.push(v[k] + 1);
                k = k + 1;
            }
            PromptResult::Indices(w)
        },
    }
}

/// The number of labels that a request offers; none for a text or a confirmation.
pub open spec fn label_count(q: PromptRequest) -> nat {
    match q {
        PromptRequest::Select { items, .. } => items@.len(),
        PromptRequest::MultiSelect { items, .. } => items@.len(),
        _ => 0,
    }
}

/// The facility's answer has the shape that the request asks for, and fits its labels.
pub open spec fn answer_suits(q: PromptRequest, a: FacilityAnswer) -> bool {
    &&& match q {
        PromptRequest::Text { .. } => a is Text,
        PromptRequest::Confirm { .. } => a is Confirmed,
        PromptRequest::Select { .. } => a is Chosen,
        PromptRequest::MultiSelect { .. } => a is ChosenMany,
    }
    &&& answer_fits(a, label_count(q))
}

impl PromptRequest {
    /// The number of labels that the request offers.
    pub fn label_count(&self) -> (r: usize)
        ensures
            r == label_count(*self),
    {
        match self {
            PromptRequest::Select { items, .. } => items.len(),
            PromptRequest::MultiSelect { items, .. } => items.len(),
            _ => 0,
        }
    }
}

/// Completes a request with what the facility handed back: the result that stands for
/// the answer, or `UnexpectedAnswer` where the answer does not suit the request.
pub fn complete(request: &PromptRequest, answer: FacilityAnswer) -> (r: Result<PromptResult, PromptError>)
    ensures
        answer_suits(*request, answer) <==> r is Ok,
        r matches Ok(res) ==> result_matches(answer, res),
        !answer_suits(*request, answer) ==> r == Err::<PromptResult, PromptError>(PromptError::UnexpectedAnswer),
{
    let shape_ok = match (request, &answer) {
        (PromptRequest::Text { .. }, FacilityAnswer::Text(_)) => true,
        (PromptRequest::Confirm { .. }, FacilityAnswer::Confirmed(_)) => true,
        (PromptRequest::Select { .. }, FacilityAnswer::Chosen(_)) => true,
        (PromptRequest::MultiSelect { .. }, FacilityAnswer::ChosenMany(_)) => true,
        _ => false,
    };
    let n = request.label_count();
    if shape_ok && answer.fits(n) {
        Ok(translate(answer, n))
    } else {
        Err(PromptError::UnexpectedAnswer)
    }
}

/// A choice over `n` labels yields positions from 1 to `n`, and a cancelled choice
/// yields `Cancelled`, never a partial set of positions.
pub proof fn lemma_positions_in_range(a: FacilityAnswer, n: nat, r: PromptResult)
    requires
        answer_fits(a, n),
        result_matches(a, r),
    ensures
        r matches PromptResult::Index(k) ==> 1 <= k <= n,
        r matches PromptResult::Indices(w) ==> forall|j: int|
            0 <= j < w@.len() ==> 1 <= #[trigger] w@[j] <= n,
        (a matches FacilityAnswer::Chosen(None) || a matches FacilityAnswer::ChosenMany(None))
            ==> r is Cancelled,
{
    if let FacilityAnswer::ChosenMany(Some(v)) = a {
        if let PromptResult::Indices(w) = r {
            assert forall|j: int| 0 <= j < w@.len() implies 1 <= #[trigger] w@[j] <= n by {
                assert(v@[j] < n);
            }
        }
    }
}

/// The positions of a multiple choice ascend strictly, so none occurs twice.
pub proof fn lemma_positions_ascending(a: FacilityAnswer, n: nat, r: PromptResult)
    requires
        answer_fits(a, n),
        result_matches(a, r),
    ensures
        r matches PromptResult::Indices(w) ==> forall|i: int, j: int|
            0 <= i < j < w@.len() ==> w@[i] < w@[j],
        r matches PromptResult::Indices(w) ==> forall|i: int, j: int|
            0 <= i < w@.len() && 0 <= j < w@.len() && i != j ==> w@[i] != w@[j],
{
    if let FacilityAnswer::ChosenMany(Some(v)) = a {
        if let PromptResult::Indices(w) = r {
            assert forall|i: int, j: int| 0 <= i < j < w@.len() implies w@[i] < w@[j] by {
                assert(v@[i] < v@[j]);
            }
            assert forall|i: int, j: int|
                0 <= i < w@.len() && 0 <= j < w@.len() && i != j implies w@[i] != w@[j] by {
                if i < j {
                    assert(v@[i] < v@[j]);
                } else {
                    assert(v@[j] < v@[i]);
                }
            }
        }
    }
}

} // verus!
