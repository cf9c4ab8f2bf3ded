//! The launch-list variants: projecting a decoded list response into the
//! rendered labels (the minimal variant) or into launch cards (the card
//! variant), and driving the fetch cell with the one launch-list request.

use vstd::prelude::*;
use crate::cell::{FetchCell, FetchError, step_request, step_resolve};
use crate::launch_types::{Launch, LaunchListDto};

verus! {

/// The fixed label rendered when a launch has no name.
pub open spec fn empty_label() -> Seq<char> {
    "empty"@
}

/// The fixed text rendered when a launch names no mission.
pub open spec fn unknown_mission() -> Seq<char> {
    "not known"@
}

/// The GET URL of the launch-list fetch.
pub open spec fn spec_launch_list_url() -> Seq<char> {
    "https://lldev.thespacedevs.com/2.2.0/launch?mode=list"@
}

/// The label of one launch: its name, or the fixed placeholder.
pub open spec fn spec_launch_label(l: Launch) -> Seq<char> {
    match l.name {
        Some(n) => n@,
        None => empty_label(),
    }
}

/// One label per launch, in response order.
pub open spec fn spec_launch_labels(ls: Seq<Launch>) -> Seq<Seq<char>> {
    Seq::new(ls.len(), |i: int| spec_launch_label(ls[i]))
}

/// The label of one launch, falling back to the placeholder rather than
/// failing on a missing name.
pub fn launch_label(l: &Launch) -> (r: String)
    ensures
        r@ == spec_launch_label(*l),
{
    match &l.name {
        Some(n) => n.clone(),
        None => "empty".to_owned(),
    }
}

/// One rendered label per launch of the response, in response order.
pub fn launch_labels(launches: &Vec<Launch>) -> (r: Vec<String>)
    ensures
        r.deep_view() == spec_launch_labels(launches@),
        r@.len() == launches@.len(),
{
    let mut r: Vec<String> = Vec::new();
    let mut i: usize = 0;
    while i < launches.len()
        invariant
            i <= launches.len(),
            r@.len() == i as int,
            forall|j: int| 0 <= j < i as int ==> r@[j]@ == spec_launch_label(launches@[j]),
        decreases launches.len() - i,
    {
        r.push(launch_label(&launches[i]));
        i += 1;
    }
    proof {
        assert(r.deep_view() =~= spec_launch_labels(launches@));
    }
    r
}

/// What one rendered card shows, over character sequences.
#[verifier::ext_equal]
pub struct CardModel {
    pub title: Seq<char>,
    pub mission: Seq<char>,
    pub image: Option<Seq<char>>,
}

/// One rendered card: the launch name (or its placeholder), the mission
/// identifier (or its placeholder), and the image URL, which the view
/// omits when absent rather than failing on it.
#[derive(Clone, Debug, PartialEq, Eq)]
pub struct LaunchCard {
    pub title: String,
    pub mission: String,
    pub image: Option<String>,
}

impl DeepView for LaunchCard {
    type V = CardModel;

    open spec fn deep_view(&self) -> CardModel {
        CardModel { title: self.title@, mission: self.mission@, image: self.image.deep_view() }
    }
}

/// The card of one launch.
pub open spec fn spec_launch_card(l: Launch) -> CardModel {
    CardModel {
        title: spec_launch_label(l),
        mission: match l.mission {
            Some(m) => m@,
            None => unknown_mission(),
        },
        image: match l.image {
            Some(u) => Some(u@),
            None => None,
        },
    }
}

/// One card per launch, in response order.
pub open spec fn spec_launch_cards(ls: Seq<Launch>) -> Seq<CardModel> {
    Seq::new(ls.len(), |i: int| spec_launch_card(ls[i]))
}

/// Render one launch as a card, with the defined fallbacks for a missing
/// name or mission and an omitted image element for a missing image.
pub fn launch_card(l: &Launch) -> (c: LaunchCard)
    ensures
        c.deep_view() == spec_launch_card(*l),
{
    let title = launch_label(l);
    let mission = match &l.mission {
        Some(m) => m.clone(),
        None => "not known".to_owned(),
    };
    let image = match &l.image {
        Some(u) => Some(u.clone()),
        None => None,
    };
    let c = LaunchCard { title, mission, image };
    proof {
        assert(c.deep_view() =~= spec_launch_card(*l));
    }
    c
}

/// One rendered card per launch of the response, in response order.
pub fn launch_cards(launches: &Vec<Launch>) -> (r: Vec<LaunchCard>)
    ensures
        r.deep_view() == spec_launch_cards(launches@),
        r@.len() == launches@.len(),
{
    let mut r: Vec<LaunchCard> = Vec::new();
    let mut i: usize = 0;
    while i < launches.len()
        invariant
            i <= launches.len(),
            r@.len() == i as int,
            forall|j: int| 0 <= j < i as int ==> r@[j].deep_view() == spec_launch_card(
                launches@[j],
            ),
        decreases launches.len() - i,
    {
        r.push(launch_card(&launches[i]));
        i += 1;
    }
    proof {
        assert(r.deep_view() =~= spec_launch_cards(launches@));
    }
    r
}

/// The GET URL of the launch-list fetch. No pagination or filter
/// parameters are sent.
pub fn launch_list_url() -> (u: String)
    ensures
        u@ == spec_launch_list_url(),
{
    "https://lldev.thespacedevs.com/2.2.0/launch?mode=list".to_owned()
}

/// A fetch the surrounding runtime must perform: GET `url`, then hand the
/// decoded outcome back to a resolve function together with `token`.
pub struct LaunchRequest {
    pub token: u64,
    pub url: String,
}

/// Mounting the launch list: issue the one fetch the view starts with.
pub fn start_launch_fetch<T: DeepView>(cell: &mut FetchCell<T>) -> (req: LaunchRequest)
    requires
        old(cell).wf(),
        old(cell).next_token < u64::MAX,
    ensures
        final(cell).wf(),
        final(cell)@ == step_request(old(cell)@),
        req.token == old(cell)@.next_token,
        req.url@ == spec_launch_list_url(),
        final(cell)@.phase() is Pending,
{
    let token = cell.request();
    LaunchRequest { token, url: launch_list_url() }
}

/// The model of a launch-list outcome rendered as labels.
pub open spec fn spec_names_outcome(outcome: Result<LaunchListDto, FetchError>) -> Result<
    Seq<Seq<char>>,
    Seq<char>,
> {
    match outcome {
        Ok(dto) => Ok(spec_launch_labels(dto.results@)),
        Err(e) => Err(e.spec_message()),
    }
}

/// The model of a launch-list outcome rendered as cards.
pub open spec fn spec_cards_outcome(outcome: Result<LaunchListDto, FetchError>) -> Result<
    Seq<CardModel>,
    Seq<char>,
> {
    match outcome {
        Ok(dto) => Ok(spec_launch_cards(dto.results@)),
        Err(e) => Err(e.spec_message()),
    }
}

/// Apply the outcome of the launch-list request `token` to the minimal
/// variant: on success the rendered list holds one label per launch of the
/// response, in response order; on failure the error list holds exactly
/// the carried message and earlier data stays. A stale token changes
/// nothing.
pub fn resolve_launch_names(
    cell: &mut FetchCell<String>,
    token: u64,
    outcome: Result<LaunchListDto, FetchError>,
)
    requires
        old(cell).wf(),
    ensures
        final(cell).wf(),
        final(cell)@ == step_resolve(old(cell)@, token as int, spec_names_outcome(outcome)),
        old(cell)@.current != Some(token as int) ==> final(cell)@ == old(cell)@,
        outcome matches Ok(dto) ==> (old(cell)@.current == Some(token as int)
            ==> final(cell)@.data == Some(spec_launch_labels(dto.results@))),
{
    match outcome {
        Ok(dto) => {
            let labels = launch_labels(&dto.results);
            cell.resolve(token, Ok(labels));
        },
        Err(e) => {
            cell.resolve(token, Err(e));
        },
    }
}

/// Apply the outcome of the launch-list request `token` to the card
/// variant: on success one card per launch of the response, in response
/// order; on failure the error list holds exactly the carried message and
/// earlier data stays. A stale token changes nothing.
pub fn resolve_launch_cards(
    cell: &mut FetchCell<LaunchCard>,
    token: u64,
    outcome: Result<LaunchListDto, FetchError>,
)
    requires
        old(cell).wf(),
    ensures
        final(cell).wf(),
        final(cell)@ == step_resolve(old(cell)@, token as int, spec_cards_outcome(outcome)),
        old(cell)@.current != Some(token as int) ==> final(cell)@ == old(cell)@,
        outcome matches Ok(dto) ==> (old(cell)@.current == Some(token as int)
            ==> final(cell)@.data == Some(spec_launch_cards(dto.results@))),
{
    match outcome {
        Ok(dto) => {
            let cards = launch_cards(&dto.results);
            cell.resolve(token, Ok(cards));
        },
        Err(e) => {
            cell.resolve(token, Err(e));
        },
    }
}

} // verus!
