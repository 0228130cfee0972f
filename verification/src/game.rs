use vstd::prelude::*;

use crate::notification::{
    ContentView, Notification, NotificationAuthorized, NotificationContent, NotificationResponded,
};

verus! {

/// A cell of the game's map.
#[derive(Clone, Copy, Debug, PartialEq, Eq, Hash, Structural)]
pub struct Position {
    pub x: usize,
    pub y: usize,
}

/// Something lying on the map that the player can pick up.
pub struct Item {
    pub name: String,
    pub symbol: String,
    pub position: Position,
}

/// The category of the notifications that show the map and let the player walk.
pub open spec fn move_category() -> Seq<char> {
    "MOVE"@
}

/// The category of the notifications that offer the item the player stands on.
pub open spec fn take_category() -> Seq<char> {
    "TAKE"@
}

/// What an empty cell of the map shows.
pub open spec fn empty_cell() -> Seq<char> {
    "\u{2b1b}\u{fe0f}"@
}

/// What the player's cell of the map shows.
pub open spec fn player_cell() -> Seq<char> {
    "\u{1f3c3}"@
}

/// The map is this many cells wide and this many cells high.
pub const MAP_SIZE: usize = 10;

/// Where the player stands after the action `action` of a walking notification: one cell
/// left, right, up or down for `ACTION_LEFT`, `ACTION_RIGHT`, `ACTION_UP`, `ACTION_DOWN`;
/// where it stood for any other action.
pub open spec fn moved(p: Position, action: Seq<char>) -> Position {
    if action == "ACTION_LEFT"@ {
        Position { x: (p.x - 1) as usize, y: p.y }
    } else if action == "ACTION_RIGHT"@ {
        Position { x: (p.x + 1) as usize, y: p.y }
    } else if action == "ACTION_UP"@ {
        Position { x: p.x, y: (p.y - 1) as usize }
    } else if action == "ACTION_DOWN"@ {
        Position { x: p.x, y: (p.y + 1) as usize }
    } else {
        p
    }
}

/// Whether the step of `action` stays on the cells that a `usize` can number.
pub open spec fn step_fits(p: Position, action: Seq<char>) -> bool {
    &&& action == "ACTION_LEFT"@ ==> p.x > 0
    &&& action == "ACTION_RIGHT"@ ==> p.x < usize::MAX
    &&& action == "ACTION_UP"@ ==> p.y > 0
    &&& action == "ACTION_DOWN"@ ==> p.y < usize::MAX
}

/// The index of the first item, from `i` on, that lies at `p`.
pub open spec fn first_item_from(items: Seq<Item>, p: Position, i: nat) -> Option<int>
    decreases items.len() - i,
{
    if i >= items.len() {
        None
    } else if items[i as int].position == p {
        Some(i as int)
    } else {
        first_item_from(items, p, i + 1)
    }
}

/// The index of the first item that lies at `p`.
pub open spec fn first_item_at(items: Seq<Item>, p: Position) -> Option<int> {
    first_item_from(items, p, 0)
}

/// What the map shows at `p` apart from the player: the symbol of the last item lying there,
/// or an empty cell.
pub open spec fn item_symbol_at(items: Seq<Item>, p: Position) -> Seq<char>
    decreases items.len(),
{
    if items.len() == 0 {
        empty_cell()
    } else if items.last().position == p {
        items.last().symbol@
    } else {
        item_symbol_at(items.drop_last(), p)
    }
}

/// What the map shows at `p`: the player where the player stands, otherwise what lies there.
pub open spec fn cell_at(player: Position, items: Seq<Item>, p: Position) -> Seq<char> {
    if p == player {
        player_cell()
    } else {
        item_symbol_at(items, p)
    }
}

/// The first `n` cells of row `y` of the map, left to right.
pub open spec fn render_row(player: Position, items: Seq<Item>, y: usize, n: nat) -> Seq<char>
    decreases n,
{
    if n == 0 {
        Seq::empty()
    } else {
        render_row(player, items, y, (n - 1) as nat) + cell_at(
            player,
            items,
            Position { x: (n - 1) as usize, y },
        )
    }
}

/// The first `n` rows of the map, top to bottom, each ended by a line break.
pub open spec fn render_rows(player: Position, items: Seq<Item>, n: nat) -> Seq<char>
    decreases n,
{
    if n == 0 {
        Seq::empty()
    } else {
        render_rows(player, items, (n - 1) as nat) + render_row(
            player,
            items,
            (n - 1) as usize,
            MAP_SIZE as nat,
        ) + "\n"@
    }
}

/// The whole map: `MAP_SIZE` rows of `MAP_SIZE` cells.
pub open spec fn render_map(player: Position, items: Seq<Item>) -> Seq<char> {
    render_rows(player, items, MAP_SIZE as nat)
}

/// A walking notification: `text` as its title, the map as its body.
pub open spec fn map_view(text: Seq<char>, player: Position, items: Seq<Item>) -> ContentView {
    ContentView { title: text, body: render_map(player, items), category_identifier: move_category() }
}

/// The outcome of answering a notification: where the player stands, what notification
/// comes next, and which item is taken off the map.
pub struct Turn {
    pub player: Position,
    pub shown: Option<ContentView>,
    pub taken: Option<int>,
}

/// Whether an answer can be handled: a step must stay on the cells that a `usize` can
/// number, and taking or leaving an item needs an item where the player stands.
pub open spec fn response_defined(
    player: Position,
    items: Seq<Item>,
    category: Seq<char>,
    action: Seq<char>,
) -> bool {
    if category == move_category() {
        step_fits(player, action)
    } else if category == take_category() {
        (action == "ACTION_TAKE"@ || action == "ACTION_LEAVE"@) ==> first_item_at(items, player) is Some
    } else {
        true
    }
}

/// How the game answers the action `action` on a notification of category `category`.
///
/// On a walking notification the player takes the step; if an item lies there the next
/// notification offers it, otherwise it shows the map again. On an offer, `ACTION_TAKE`
/// takes the first item at the player's cell and `ACTION_LEAVE` leaves it, and either way
/// the map is shown again; other actions, and other categories, change nothing and show
/// nothing.
pub open spec fn respond(
    player: Position,
    items: Seq<Item>,
    category: Seq<char>,
    action: Seq<char>,
) -> Turn {
    if category == move_category() {
        let p = moved(player, action);
        match first_item_at(items, p) {
            Some(i) => Turn {
                player: p,
                shown: Some(
                    ContentView {
                        title: "You come across a "@ + items[i].name@,
                        body: "Do you want to pick it up?"@,
                        category_identifier: take_category(),
                    },
                ),
                taken: None,
            },
            None => Turn { player: p, shown: Some(map_view("Walkin'"@, p, items)), taken: None },
        }
    } else if category == take_category() {
        if action == "ACTION_TAKE"@ {
            let i = first_item_at(items, player)->0;
            Turn {
                player,
                shown: Some(map_view("You grab the "@ + items[i].name@ + "!"@, player, items)),
                taken: Some(i),
            }
        } else if action == "ACTION_LEAVE"@ {
            let i = first_item_at(items, player)->0;
            Turn {
                player,
                shown: Some(
                    map_view("You leave the "@ + items[i].name@ + ", and move on"@, player, items),
                ),
                taken: None,
            }
        } else {
            Turn { player, shown: None, taken: None }
        }
    } else {
        Turn { player, shown: None, taken: None }
    }
}

/// What the game does after an answer: the entity of the answered notification, which is
/// always withdrawn; the notification to show next; and the index of the item to take off
/// the map.
pub struct ResponseEffects {
    pub withdraw: u64,
    pub spawn: Option<Notification>,
    pub despawn_item: Option<usize>,
}

fn same_text(a: &str, b: &str) -> (r: bool)
    ensures
        r == (a@ == b@),
{
    a.to_owned() == b.to_owned()
}

/// The index of the first item at `p`.
pub fn find_item_at(items: &Vec<Item>, p: Position) -> (r: Option<usize>)
    ensures
        r matches Some(i) ==> first_item_at(items@, p) == Some(i as int),
        r is None ==> first_item_at(items@, p) is None,
        r matches Some(i) ==> i < items.len() && items@[i as int].position == p,
{
    let mut i: usize = 0;
    while i < items.len()
        invariant
            i <= items.len(),
            first_item_at(items@, p) == first_item_from(items@, p, i as nat),
        decreases items.len() - i,
    {
        if items[i].position == p {
            return Some(i);
        }
        i = i + 1;
    }
    None
}

/// What the map shows at `position` apart from the player.
fn item_symbol<'a>(items: &'a Vec<Item>, position: Position) -> (symbol: &'a str)
    ensures
        symbol@ == item_symbol_at(items@, position),
{
    let mut symbol: &str = "\u{2b1b}\u{fe0f}";
    let mut i: usize = 0;
    assert(items@.take(0) =~= Seq::<Item>::empty());
    while i < items.len()
        invariant
            i <= items.len(),
            symbol@ == item_symbol_at(items@.take(i as int), position),
        decreases items.len() - i,
    {
        assert(items@.take(i + 1).drop_last() =~= items@.take(i as int));
        if items[i].position == position {
            symbol = items[i].symbol.as_str();
        }
        i = i + 1;
    }
    assert(items@.take(items.len() as int) =~= items@);
    symbol
}

/// A walking notification titled `text` whose body draws the map: `MAP_SIZE` rows of
/// `MAP_SIZE` cells, each ended by a line break, where the player's cell shows the player,
/// a cell with items the symbol of the last of them, and any other cell an empty square.
pub fn map_notification(text: &str, player_position: Position, items: &Vec<Item>) -> (n:
    Notification)
    ensures
        n@ == map_view(text@, player_position, items@),
{
    let mut visible_map = String::new();
    let mut y: usize = 0;
    while y < MAP_SIZE
        invariant
            y <= MAP_SIZE,
            visible_map@ == render_rows(player_position, items@, y as nat),
        decreases MAP_SIZE - y,
    {
        let ghost before = visible_map@;
        let mut x: usize = 0;
        while x < MAP_SIZE
            invariant
                x <= MAP_SIZE,
                y < MAP_SIZE,
                visible_map@ == before + render_row(player_position, items@, y, x as nat),
            decreases MAP_SIZE - x,
        {
            let position = Position { x, y };
            let mut symbol = item_symbol(items, position);
            if position == player_position {
                symbol = "\u{1f3c3}";
            }
            visible_map.append(symbol);
            x = x + 1;
        }
        visible_map.append("\n");
        y = y + 1;
    }
    let content = NotificationContent {
        title: text.to_owned(),
        body: visible_map,
        category_identifier: "MOVE".to_owned(),
    };
    Notification::new(&content)
}

/// Whether [`handle_responded`] can answer `message` on `responded` with the player at
/// `player_position` and these items on the map (see [`response_defined`]).
pub fn response_is_defined(
    player_position: Position,
    items: &Vec<Item>,
    responded: &Notification,
    message: &NotificationResponded,
) -> (r: bool)
    ensures
        r == response_defined(
            player_position,
            items@,
            responded@.category_identifier,
            message.action_identifier@,
        ),
{
    let category = responded.content().category_identifier.as_str();
    let action_identifier = message.action_identifier.as_str();
    if same_text(category, "MOVE") {
        if same_text(action_identifier, "ACTION_LEFT") && player_position.x == 0 {
            return false;
        }
        if same_text(action_identifier, "ACTION_RIGHT") && player_position.x == usize::MAX {
            return false;
        }
        if same_text(action_identifier, "ACTION_UP") && player_position.y == 0 {
            return false;
        }
        if same_text(action_identifier, "ACTION_DOWN") && player_position.y == usize::MAX {
            return false;
        }
        true
    } else if same_text(category, "TAKE") {
        if same_text(action_identifier, "ACTION_TAKE") || same_text(action_identifier, "ACTION_LEAVE") {
            find_item_at(items, player_position).is_some()
        } else {
            true
        }
    } else {
        true
    }
}

/// Whether `effects` are what the game does on the answer `message` to `responded`, with
/// the player at `player` and these items on the map: the answered notification is
/// withdrawn, and the rest is as [`respond`] says.
pub open spec fn effects_of(
    effects: ResponseEffects,
    player: Position,
    items: Seq<Item>,
    responded: Notification,
    message: NotificationResponded,
) -> bool {
    let turn = respond(player, items, responded@.category_identifier, message.action_identifier@);
    &&& effects.withdraw == message.notification
    &&& match effects.spawn {
        Some(n) => turn.shown == Some(n@),
        None => turn.shown is None,
    }
    &&& match effects.despawn_item {
        Some(i) => turn.taken == Some(i as int),
        None => turn.taken is None,
    }
}

/// Answers the message `message`, the action that the user chose on the notification
/// `responded`, as [`respond`] says: moves the player, names the item to take off the map,
/// gives the notification to show next, and always withdraws the answered notification.
pub fn handle_responded(
    player_position: &mut Position,
    items: &Vec<Item>,
    responded: &Notification,
    message: &NotificationResponded,
) -> (effects: ResponseEffects)
    requires
        response_defined(
            *old(player_position),
            items@,
            responded@.category_identifier,
            message.action_identifier@,
        ),
    ensures
        *final(player_position) == respond(
            *old(player_position),
            items@,
            responded@.category_identifier,
            message.action_identifier@,
        ).player,
        effects_of(effects, *old(player_position), items@, *responded, *message),
{
    let withdraw = message.notification;
    let category = responded.content().category_identifier.as_str();
    let action_identifier = message.action_identifier.as_str();
    if same_text(category, "MOVE") {
        if same_text(action_identifier, "ACTION_LEFT") {
            player_position.x = player_position.x - 1;
        } else if same_text(action_identifier, "ACTION_RIGHT") {
            player_position.x = player_position.x + 1;
        } else if same_text(action_identifier, "ACTION_UP") {
            player_position.y = player_position.y - 1;
        } else if same_text(action_identifier, "ACTION_DOWN") {
            player_position.y = player_position.y + 1;
        }
        match find_item_at(items, *player_position) {
            Some(i) => {
                let mut title = "You come across a ".to_owned();
                title.append(items[i].name.as_str());
                let content = NotificationContent {
                    title,
                    body: "Do you want to pick it up?".to_owned(),
                    category_identifier: "TAKE".to_owned(),
                };
                ResponseEffects {
                    withdraw,
                    spawn: Some(Notification::new(&content)),
                    despawn_item: None,
                }
            },
            None => ResponseEffects {
                withdraw,
                spawn: Some(map_notification("Walkin'", *player_position, items)),
                despawn_item: None,
            },
        }
    } else if same_text(category, "TAKE") {
        if same_text(action_identifier, "ACTION_TAKE") {
            let i = find_item_at(items, *player_position).unwrap();
            let mut text = "You grab the ".to_owned();
            text.append(items[i].name.as_str());
            text.append("!");
            ResponseEffects {
                withdraw,
                spawn: Some(map_notification(text.as_str(), *player_position, items)),
                despawn_item: Some(i),
            }
        } else if same_text(action_identifier, "ACTION_LEAVE") {
            let i = find_item_at(items, *player_position).unwrap();
            let mut text = "You leave the ".to_owned();
            text.append(items[i].name.as_str());
            text.append(", and move on");
            ResponseEffects {
                withdraw,
                spawn: Some(map_notification(text.as_str(), *player_position, items)),
                despawn_item: None,
            }
        } else {
            ResponseEffects { withdraw, spawn: None, despawn_item: None }
        }
    } else {
        ResponseEffects { withdraw, spawn: None, despawn_item: None }
    }
}

/// An answer that has come in: the message, and the notification it answers.
pub struct Answer {
    pub responded: Notification,
    pub message: NotificationResponded,
}

/// Where the player stands after the answers `answers`, taken in order, all against the
/// same items on the map.
pub open spec fn position_after(player: Position, items: Seq<Item>, answers: Seq<Answer>) -> Position
    decreases answers.len(),
{
    if answers.len() == 0 {
        player
    } else {
        let a = answers.last();
        respond(
            position_after(player, items, answers.drop_last()),
            items,
            a.responded@.category_identifier,
            a.message.action_identifier@,
        ).player
    }
}

/// Whether each of the answers, taken in order, can be handled where the ones before it
/// leave the player.
pub open spec fn answers_defined(player: Position, items: Seq<Item>, answers: Seq<Answer>) -> bool
    decreases answers.len(),
{
    answers.len() == 0 || {
        let a = answers.last();
        &&& answers_defined(player, items, answers.drop_last())
        &&& response_defined(
            position_after(player, items, answers.drop_last()),
            items,
            a.responded@.category_identifier,
            a.message.action_identifier@,
        )
    }
}

/// How many of the answers are to walking notifications.
pub open spec fn walking_answers(answers: Seq<Answer>) -> nat
    decreases answers.len(),
{
    if answers.len() == 0 {
        0
    } else {
        walking_answers(answers.drop_last()) + if answers.last().responded@.category_identifier
            == move_category() {
            1nat
        } else {
            0nat
        }
    }
}

/// How many cells apart `p` and `q` are, counting steps left, right, up and down.
pub open spec fn distance(p: Position, q: Position) -> nat {
    (if p.x >= q.x { p.x - q.x } else { q.x - p.x }) as nat + (if p.y >= q.y {
        p.y - q.y
    } else {
        q.y - p.y
    }) as nat
}

proof fn lemma_answers_defined_prefix(player: Position, items: Seq<Item>, answers: Seq<Answer>, k: int)
    requires
        0 <= k <= answers.len(),
        answers_defined(player, items, answers),
    ensures
        answers_defined(player, items, answers.take(k)),
    decreases answers.len() - k,
{
    if k < answers.len() {
        lemma_answers_defined_prefix(player, items, answers, k + 1);
        assert(answers.take(k + 1).drop_last() =~= answers.take(k));
    } else {
        assert(answers.take(k) =~= answers);
    }
}

/// Whether [`handle_all_responded`] can answer `answers` with the player at
/// `player_position` (see [`answers_defined`]).
pub fn answers_are_defined(player_position: Position, items: &Vec<Item>, answers: &Vec<Answer>) -> (r:
    bool)
    ensures
        r == answers_defined(player_position, items@, answers@),
{
    let mut p = player_position;
    let mut i: usize = 0;
    assert(answers@.take(0) =~= Seq::<Answer>::empty());
    while i < answers.len()
        invariant
            i <= answers.len(),
            answers_defined(player_position, items@, answers@.take(i as int)),
            p == position_after(player_position, items@, answers@.take(i as int)),
        decreases answers.len() - i,
    {
        let ghost before = answers@.take(i as int);
        assert(answers@.take(i + 1).drop_last() =~= before);
        assert(answers@.take(i + 1).last() == answers@[i as int]);
        if !response_is_defined(p, items, &answers[i].responded, &answers[i].message) {
            proof {
                if answers_defined(player_position, items@, answers@) {
                    lemma_answers_defined_prefix(player_position, items@, answers@, i + 1);
                }
            }
            return false;
        }
        let _ = handle_responded(&mut p, items, &answers[i].responded, &answers[i].message);
        i = i + 1;
    }
    assert(answers@.take(answers.len() as int) =~= answers@);
    true
}

/// Answers each of `answers` in order, as [`handle_responded`] does, all against the same
/// items on the map; gives the effects of each, in the same order, and leaves the player
/// where the last answer leaves it.
pub fn handle_all_responded(
    player_position: &mut Position,
    items: &Vec<Item>,
    answers: &Vec<Answer>,
) -> (effects: Vec<ResponseEffects>)
    requires
        answers_defined(*old(player_position), items@, answers@),
    ensures
        effects.len() == answers.len(),
        forall|i: int|
            0 <= i < answers.len() ==> effects_of(
                #[trigger] effects@[i],
                position_after(*old(player_position), items@, answers@.take(i)),
                items@,
                answers@[i].responded,
                answers@[i].message,
            ),
        forall|i: int|
            0 <= i < answers.len() ==> (#[trigger] effects@[i]).withdraw
                == answers@[i].message.notification,
        *final(player_position) == position_after(*old(player_position), items@, answers@),
{
    let ghost start = *player_position;
    let mut effects: Vec<ResponseEffects> = Vec::new();
    let mut i: usize = 0;
    assert(answers@.take(0) =~= Seq::<Answer>::empty());
    while i < answers.len()
        invariant
            i <= answers.len(),
            answers_defined(start, items@, answers@),
            effects.len() == i,
            forall|j: int|
                0 <= j < i ==> effects_of(
                    #[trigger] effects@[j],
                    position_after(start, items@, answers@.take(j)),
                    items@,
                    answers@[j].responded,
                    answers@[j].message,
                ),
            *player_position == position_after(start, items@, answers@.take(i as int)),
        decreases answers.len() - i,
    {
        proof {
            lemma_answers_defined_prefix(start, items@, answers@, i + 1);
            assert(answers@.take(i + 1).drop_last() =~= answers@.take(i as int));
            assert(answers@.take(i + 1).last() == answers@[i as int]);
        }
        let e = handle_responded(player_position, items, &answers[i].responded, &answers[i].message);
        effects.push(e);
        i = i + 1;
    }
    assert(answers@.take(answers.len() as int) =~= answers@);
    effects
}

/// Whether each answer to a walking notification, taken in order, steps onto a cell that a
/// `usize` can number; nothing is asked of other answers.
pub open spec fn walks_fit(player: Position, items: Seq<Item>, answers: Seq<Answer>) -> bool
    decreases answers.len(),
{
    answers.len() == 0 || {
        let a = answers.last();
        &&& walks_fit(player, items, answers.drop_last())
        &&& a.responded@.category_identifier == move_category() ==> step_fits(
            position_after(player, items, answers.drop_last()),
            a.message.action_identifier@,
        )
    }
}

/// Runs of answers that can be handled step onto cells that a `usize` can number.
pub proof fn lemma_defined_walks_fit(player: Position, items: Seq<Item>, answers: Seq<Answer>)
    requires
        answers_defined(player, items, answers),
    ensures
        walks_fit(player, items, answers),
    decreases answers.len(),
{
    if answers.len() > 0 {
        lemma_defined_walks_fit(player, items, answers.drop_last());
    }
}

/// One answer moves the player by at most one cell if it answers a walking notification and
/// stays on cells that a `usize` can number, and not at all otherwise.
pub proof fn lemma_single_answer_bound(
    player: Position,
    items: Seq<Item>,
    category: Seq<char>,
    action: Seq<char>,
)
    ensures
        category == move_category() && step_fits(player, action) ==> distance(
            player,
            respond(player, items, category, action).player,
        ) <= 1,
        category != move_category() ==> respond(player, items, category, action).player == player,
{
    lemma_steps(player);
}

/// Over any run of answers whose steps stay on cells that a `usize` can number, the player
/// ends up no more cells away from where it stood than there were answers to walking
/// notifications; answers of other kinds never move it.
pub proof fn lemma_walking_bound(player: Position, items: Seq<Item>, answers: Seq<Answer>)
    requires
        walks_fit(player, items, answers),
    ensures
        distance(player, position_after(player, items, answers)) <= walking_answers(answers),
    decreases answers.len(),
{
    if answers.len() > 0 {
        let rest = answers.drop_last();
        lemma_walking_bound(player, items, rest);
        let p = position_after(player, items, rest);
        let a = answers.last();
        lemma_single_answer_bound(p, items, a.responded@.category_identifier, a.message.action_identifier@);
    }
}

/// What the game does when the answer to its request for permission comes in: whether to
/// withdraw every notification shown so far, and the notification to show then.
pub struct AuthorizationEffects {
    pub withdraw_all: bool,
    pub spawn: Option<Notification>,
}

/// Once the user has allowed notifications, every notification shown so far is withdrawn
/// and the first walking notification, titled "Look around for treasure!", is shown.
/// Nothing happens where permission was refused or could not be asked.
pub fn start_after_authorization(
    authorized: &NotificationAuthorized,
    player_position: Position,
    items: &Vec<Item>,
) -> (effects: AuthorizationEffects)
    ensures
        effects.withdraw_all == (authorized.result matches Ok(granted) && granted),
        (match authorized.result {
            Ok(true) => effects.spawn matches Some(m) && m@ == map_view(
                "Look around for treasure!"@,
                player_position,
                items@,
            ),
            _ => effects.spawn is None,
        }),
{
    match &authorized.result {
        Ok(true) => AuthorizationEffects {
            withdraw_all: true,
            spawn: Some(map_notification("Look around for treasure!", player_position, items)),
        },
        _ => AuthorizationEffects { withdraw_all: false, spawn: None },
    }
}

/// Where the player starts: the cell (5, 5).
pub fn starting_position() -> (p: Position)
    ensures
        p == (Position { x: 5, y: 5 }),
{
    Position { x: 5, y: 5 }
}

/// The items on the map when the game starts: a rusty sword (purple square) at (7, 8) and a
/// worn shoe (yellow square) at (3, 4), in that order.
pub fn starting_items() -> (items: Vec<Item>)
    ensures
        items.len() == 2,
        items@[0].name@ == "rusty sword (+1 ATK)"@,
        items@[0].symbol@ == "\u{1f7ea}"@,
        items@[0].position == (Position { x: 7, y: 8 }),
        items@[1].name@ == "worn shoe"@,
        items@[1].symbol@ == "\u{1f7e8}"@,
        items@[1].position == (Position { x: 3, y: 4 }),
{
    let mut items: Vec<Item> = Vec::new();
    items.push(
        Item {
            name: "rusty sword (+1 ATK)".to_owned(),
            symbol: "\u{1f7ea}".to_owned(),
            position: Position { x: 7, y: 8 },
        },
    );
    items.push(
        Item {
            name: "worn shoe".to_owned(),
            symbol: "\u{1f7e8}".to_owned(),
            position: Position { x: 3, y: 4 },
        },
    );
    items
}

/// The item that [`first_item_at`] names lies at that cell, and no item before it does.
pub proof fn lemma_first_item_at(items: Seq<Item>, p: Position)
    ensures
        first_item_at(items, p) matches Some(i) ==> 0 <= i < items.len() && items[i].position == p
            && forall|j: int| 0 <= j < i ==> items[j].position != p,
        first_item_at(items, p) is None ==> forall|j: int|
            0 <= j < items.len() ==> items[j].position != p,
{
    lemma_first_item_from(items, p, 0);
}

proof fn lemma_first_item_from(items: Seq<Item>, p: Position, k: nat)
    ensures
        first_item_from(items, p, k) matches Some(i) ==> k <= i < items.len() && items[i].position
            == p && forall|j: int| k <= j < i ==> items[j].position != p,
        first_item_from(items, p, k) is None ==> forall|j: int|
            k <= j < items.len() ==> items[j].position != p,
    decreases items.len() - k,
{
    if k < items.len() {
        lemma_first_item_from(items, p, k + 1);
    }
}

/// Only an item that lies where the player stands is ever taken off the map, and taking
/// one leaves the player where it was.
pub proof fn lemma_only_item_underfoot_taken(
    player: Position,
    items: Seq<Item>,
    category: Seq<char>,
    action: Seq<char>,
)
    requires
        response_defined(player, items, category, action),
    ensures
        respond(player, items, category, action).taken matches Some(i) ==> 0 <= i < items.len()
            && items[i].position == player && respond(player, items, category, action).player
            == player,
{
    lemma_first_item_at(items, player);
}

/// Every walking action moves the player by exactly one cell, and a step left undoes a step
/// right, a step up a step down, and the other way round.
pub proof fn lemma_steps(p: Position)
    ensures
        p.x > 0 ==> moved(p, "ACTION_LEFT"@) == (Position { x: (p.x - 1) as usize, y: p.y }),
        p.x < usize::MAX ==> moved(p, "ACTION_RIGHT"@) == (Position { x: (p.x + 1) as usize, y: p.y }),
        p.y > 0 ==> moved(p, "ACTION_UP"@) == (Position { x: p.x, y: (p.y - 1) as usize }),
        p.y < usize::MAX ==> moved(p, "ACTION_DOWN"@) == (Position { x: p.x, y: (p.y + 1) as usize }),
        p.x > 0 ==> moved(moved(p, "ACTION_LEFT"@), "ACTION_RIGHT"@) == p,
        p.x < usize::MAX ==> moved(moved(p, "ACTION_RIGHT"@), "ACTION_LEFT"@) == p,
        p.y > 0 ==> moved(moved(p, "ACTION_UP"@), "ACTION_DOWN"@) == p,
        p.y < usize::MAX ==> moved(moved(p, "ACTION_DOWN"@), "ACTION_UP"@) == p,
{
    reveal_strlit("ACTION_LEFT");
    reveal_strlit("ACTION_RIGHT");
    reveal_strlit("ACTION_UP");
    reveal_strlit("ACTION_DOWN");
    assert("ACTION_LEFT"@.len() != "ACTION_RIGHT"@.len());
    assert("ACTION_LEFT"@.len() != "ACTION_UP"@.len());
    assert("ACTION_LEFT"@[7] != "ACTION_DOWN"@[7]);
    assert("ACTION_RIGHT"@.len() != "ACTION_UP"@.len());
    assert("ACTION_RIGHT"@.len() != "ACTION_DOWN"@.len());
    assert("ACTION_UP"@.len() != "ACTION_DOWN"@.len());
}

/// The item that a step offers is the very item that taking it, from the same cell and with
/// the same items on the map, takes off the map.
pub proof fn lemma_offer_then_take(player: Position, items: Seq<Item>, action: Seq<char>)
    requires
        respond(player, items, move_category(), action).shown matches Some(v) && v.category_identifier
            == take_category(),
    ensures
        ({
            let p = respond(player, items, move_category(), action).player;
            let taken = respond(p, items, take_category(), "ACTION_TAKE"@).taken;
            &&& first_item_at(items, p) is Some
            &&& taken == first_item_at(items, p)
            &&& respond(player, items, move_category(), action).shown->0.title == "You come across a "@
                + items[taken->0].name@
        }),
{
    reveal_strlit("MOVE");
    reveal_strlit("TAKE");
    assert(move_category()[0] != take_category()[0]);
    let p = moved(player, action);
    if first_item_at(items, p) is None {
        assert(map_view("Walkin'"@, p, items).category_identifier == move_category());
    }
}

/// Answers on notifications of other categories than walking and offers, and actions on an
/// offer other than taking and leaving, change nothing and show nothing.
pub proof fn lemma_other_answers_inert(
    player: Position,
    items: Seq<Item>,
    category: Seq<char>,
    action: Seq<char>,
)
    requires
        category != move_category(),
        category != take_category() || (action != "ACTION_TAKE"@ && action != "ACTION_LEAVE"@),
    ensures
        respond(player, items, category, action) == (Turn { player, shown: None, taken: None }),
{
}

/// An action that a category of notifications offers.
pub struct NotificationActionDescription {
    pub identifier: String,
    pub title: String,
    /// The name of the system image shown beside the title.
    pub icon_system_image_name: String,
    /// Whether the action is shown as destructive (in red).
    pub destructive: bool,
}

impl View for NotificationActionDescription {
    type V = (Seq<char>, Seq<char>, Seq<char>, bool);

    open spec fn view(&self) -> (Seq<char>, Seq<char>, Seq<char>, bool) {
        (self.identifier@, self.title@, self.icon_system_image_name@, self.destructive)
    }
}

/// A category of notifications and the actions that its notifications offer.
pub struct NotificationCategoryDescription {
    pub identifier: String,
    pub actions: Vec<NotificationActionDescription>,
    /// The identifiers of the intents (Siri requests) that the category stands for.
    pub intent_identifiers: Vec<String>,
    /// Whether dismissing a notification of the category is reported like an action.
    pub custom_dismiss_action: bool,
}

impl View for NotificationCategoryDescription {
    type V = (Seq<char>, Seq<(Seq<char>, Seq<char>, Seq<char>, bool)>, Seq<Seq<char>>, bool);

    open spec fn view(&self) -> (
        Seq<char>,
        Seq<(Seq<char>, Seq<char>, Seq<char>, bool)>,
        Seq<Seq<char>>,
        bool,
    ) {
        (
            self.identifier@,
            self.actions@.map_values(|a: NotificationActionDescription| a@),
            self.intent_identifiers@.map_values(|s: String| s@),
            self.custom_dismiss_action,
        )
    }
}

/// The two categories of the game's notifications: walking (`MOVE`: left, right, up, down)
/// and offers (`TAKE`: take, or leave, which is shown as destructive); neither stands for
/// any intent, and both report dismissal.
pub open spec fn game_categories() -> Seq<
    (Seq<char>, Seq<(Seq<char>, Seq<char>, Seq<char>, bool)>, Seq<Seq<char>>, bool),
> {
    seq![
        (
            move_category(),
            seq![
                ("ACTION_LEFT"@, "Go left"@, "arrowshape.left"@, false),
                ("ACTION_RIGHT"@, "Go right"@, "arrowshape.right"@, false),
                ("ACTION_UP"@, "Go up"@, "arrowshape.up"@, false),
                ("ACTION_DOWN"@, "Go down"@, "arrowshape.down"@, false),
            ],
            Seq::empty(),
            true,
        ),
        (
            take_category(),
            seq![
                ("ACTION_TAKE"@, "Take"@, "hand.point.up"@, false),
                ("ACTION_LEAVE"@, "Leave"@, "figure.walk"@, true),
            ],
            Seq::empty(),
            true,
        ),
    ]
}

fn action_description(identifier: &str, title: &str, icon: &str, destructive: bool) -> (a:
    NotificationActionDescription)
    ensures
        a@ == (identifier@, title@, icon@, destructive),
{
    NotificationActionDescription {
        identifier: identifier.to_owned(),
        title: title.to_owned(),
        icon_system_image_name: icon.to_owned(),
        destructive,
    }
}

/// The categories of notifications that the game registers, as [`game_categories`] lists
/// them.
pub fn notification_categories() -> (categories: Vec<NotificationCategoryDescription>)
    ensures
        categories@.map_values(|c: NotificationCategoryDescription| c@) == game_categories(),
{
    let mut walking: Vec<NotificationActionDescription> = Vec::new();
    walking.push(action_description("ACTION_LEFT", "Go left", "arrowshape.left", false));
    walking.push(action_description("ACTION_RIGHT", "Go right", "arrowshape.right", false));
    walking.push(action_description("ACTION_UP", "Go up", "arrowshape.up", false));
    walking.push(action_description("ACTION_DOWN", "Go down", "arrowshape.down", false));
    let mut offer: Vec<NotificationActionDescription> = Vec::new();
    offer.push(action_description("ACTION_TAKE", "Take", "hand.point.up", false));
    // Not really, but it makes the button red
    offer.push(action_description("ACTION_LEAVE", "Leave", "figure.walk", true));
    let move_description = NotificationCategoryDescription {
        identifier: "MOVE".to_owned(),
        actions: walking,
        intent_identifiers: Vec::new(),
        custom_dismiss_action: true,
    };
    let take_description = NotificationCategoryDescription {
        identifier: "TAKE".to_owned(),
        actions: offer,
        intent_identifiers: Vec::new(),
        custom_dismiss_action: true,
    };
    assert(move_description@.1 =~= game_categories()[0].1);
    assert(take_description@.1 =~= game_categories()[1].1);
    assert(move_description@.2 =~= game_categories()[0].2);
    assert(take_description@.2 =~= game_categories()[1].2);
    let mut categories: Vec<NotificationCategoryDescription> = Vec::new();
    categories.push(move_description);
    categories.push(take_description);
    assert(categories@.map_values(|c: NotificationCategoryDescription| c@) =~= game_categories());
    categories
}

/// Whether `q` is one cell left, right, above or below `p`.
pub open spec fn one_step_apart(p: Position, q: Position) -> bool {
    ||| p.y == q.y && (p.x + 1 == q.x || q.x + 1 == p.x)
    ||| p.x == q.x && (p.y + 1 == q.y || q.y + 1 == p.y)
}

/// Every action that a walking notification offers moves the player by exactly one cell,
/// wherever the step stays on the cells that a `usize` can number; and every action that
/// an offer makes is one that the game answers.
pub proof fn lemma_offered_actions_answered(p: Position, i: int)
    ensures
        0 <= i < game_categories()[0].1.len() && step_fits(p, game_categories()[0].1[i].0)
            ==> one_step_apart(p, moved(p, game_categories()[0].1[i].0)),
        0 <= i < game_categories()[1].1.len() ==> (game_categories()[1].1[i].0 == "ACTION_TAKE"@
            || game_categories()[1].1[i].0 == "ACTION_LEAVE"@),
{
    lemma_steps(p);
}

} // verus!
