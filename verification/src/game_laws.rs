use vstd::prelude::*;

use crate::game::{
    item_symbol_at, answers_defined, cell_at, first_item_at, game_categories, lemma_first_item_at, moved,
    position_after, render_map, render_row, render_rows, respond, response_defined, Answer,
    Item, Position, MAP_SIZE,
};

verus! {

/// The walking actions that the game registers are titled by the way they move the player:
/// "Go up" exactly for the action that moves it one cell up, "Go down" one cell down,
/// "Go left" one cell left and "Go right" one cell right; the category is `MOVE`.
pub proof fn lemma_walking_titles(p: Position, i: int)
    requires
        0 < p.x < usize::MAX,
        0 < p.y < usize::MAX,
        0 <= i < game_categories()[0].1.len(),
    ensures
        game_categories()[0].0 == "MOVE"@,
        ({
            let id = game_categories()[0].1[i].0;
            let title = game_categories()[0].1[i].1;
            &&& title == "Go up"@ <==> moved(p, id) == (Position { x: p.x, y: (p.y - 1) as usize })
            &&& title == "Go down"@ <==> moved(p, id) == (Position {
                x: p.x,
                y: (p.y + 1) as usize,
            })
            &&& title == "Go left"@ <==> moved(p, id) == (Position {
                x: (p.x - 1) as usize,
                y: p.y,
            })
            &&& title == "Go right"@ <==> moved(p, id) == (Position {
                x: (p.x + 1) as usize,
                y: p.y,
            })
        }),
{
    reveal_strlit("MOVE");
    reveal_strlit("Go up");
    reveal_strlit("Go down");
    reveal_strlit("Go left");
    reveal_strlit("Go right");
    reveal_strlit("ACTION_LEFT");
    reveal_strlit("ACTION_RIGHT");
    reveal_strlit("ACTION_UP");
    reveal_strlit("ACTION_DOWN");
    assert("Go up"@.len() != "Go down"@.len());
    assert("Go up"@.len() != "Go left"@.len());
    assert("Go up"@.len() != "Go right"@.len());
    assert("Go down"@[3] != "Go left"@[3]);
    assert("Go down"@.len() != "Go right"@.len());
    assert("Go left"@.len() != "Go right"@.len());
    assert("ACTION_LEFT"@.len() != "ACTION_RIGHT"@.len());
    assert("ACTION_LEFT"@.len() != "ACTION_UP"@.len());
    assert("ACTION_LEFT"@[7] != "ACTION_DOWN"@[7]);
    assert("ACTION_RIGHT"@.len() != "ACTION_UP"@.len());
    assert("ACTION_RIGHT"@.len() != "ACTION_DOWN"@.len());
    assert("ACTION_UP"@.len() != "ACTION_DOWN"@.len());
}

/// Whether some item lies at `p`.
pub open spec fn item_lies_at(items: Seq<Item>, p: Position) -> bool {
    exists|j: int| 0 <= j < items.len() && items[j].position == p
}

/// What comes after an answer: taking or leaving an offered item leaves the player where it
/// stands and always shows a walking (`MOVE`) notification next, and only taking takes an
/// item; a step shows an offer (`TAKE`) exactly when an item lies on the cell stepped onto,
/// and a walking notification otherwise.
pub proof fn lemma_what_comes_next(
    player: Position,
    items: Seq<Item>,
    category: Seq<char>,
    action: Seq<char>,
)
    requires
        response_defined(player, items, category, action),
    ensures
        category == "TAKE"@ && (action == "ACTION_TAKE"@ || action == "ACTION_LEAVE"@) ==> {
            let t = respond(player, items, category, action);
            &&& t.player == player
            &&& t.shown is Some
            &&& t.shown->0.category_identifier == "MOVE"@
            &&& (t.taken is Some <==> action == "ACTION_TAKE"@)
        },
        category == "MOVE"@ ==> {
            let t = respond(player, items, category, action);
            &&& t.shown is Some
            &&& t.taken is None
            &&& (t.shown->0.category_identifier == "TAKE"@ <==> item_lies_at(items, t.player))
            &&& (t.shown->0.category_identifier == "MOVE"@ <==> !item_lies_at(items, t.player))
        },
{
    reveal_strlit("MOVE");
    reveal_strlit("TAKE");
    reveal_strlit("ACTION_TAKE");
    reveal_strlit("ACTION_LEAVE");
    assert("MOVE"@[0] != "TAKE"@[0]);
    assert("ACTION_TAKE"@.len() != "ACTION_LEAVE"@.len());
    lemma_first_item_at(items, player);
    lemma_first_item_at(items, moved(player, action));
    if category == "MOVE"@ {
        let q = moved(player, action);
        if first_item_at(items, q) is Some {
            let i = first_item_at(items, q)->0;
            assert(items[i].position == q);
        }
    }
    if category == "TAKE"@ && (action == "ACTION_TAKE"@ || action == "ACTION_LEAVE"@) {
        let i = first_item_at(items, player)->0;
        assert(items[i].position == player);
    }
}

/// Whether `j` is the first item lying at `p`.
pub open spec fn first_lying_at(items: Seq<Item>, p: Position, j: int) -> bool {
    &&& 0 <= j < items.len()
    &&& items[j].position == p
    &&& forall|k: int| 0 <= k < j ==> items[k].position != p
}

/// The item that an answer concerns is the first one lying on the player's cell: a step
/// onto a cell with items offers the first of them by name, taking takes that one off the
/// map and names it, leaving names it and takes nothing; after taking or leaving the map
/// is drawn with the player where it stands.
pub proof fn lemma_answers_name_the_item(
    player: Position,
    items: Seq<Item>,
    category: Seq<char>,
    action: Seq<char>,
    j: int,
)
    ensures
        category == "MOVE"@ && first_lying_at(items, respond(player, items, category, action).player, j)
            ==> respond(player, items, category, action).shown == Some(
            crate::notification::ContentView {
                title: "You come across a "@ + items[j].name@,
                body: "Do you want to pick it up?"@,
                category_identifier: "TAKE"@,
            },
        ),
        category == "TAKE"@ && action == "ACTION_TAKE"@ && first_lying_at(items, player, j) ==> {
            let t = respond(player, items, category, action);
            &&& t.taken == Some(j)
            &&& t.shown->0.title == "You grab the "@ + items[j].name@ + "!"@
            &&& t.shown->0.body == render_map(player, items)
        },
        category == "TAKE"@ && action == "ACTION_LEAVE"@ && first_lying_at(items, player, j) ==> {
            let t = respond(player, items, category, action);
            &&& t.taken is None
            &&& t.shown->0.title == "You leave the "@ + items[j].name@ + ", and move on"@
            &&& t.shown->0.body == render_map(player, items)
        },
{
    reveal_strlit("MOVE");
    reveal_strlit("TAKE");
    reveal_strlit("ACTION_TAKE");
    reveal_strlit("ACTION_LEAVE");
    assert("MOVE"@[0] != "TAKE"@[0]);
    assert("ACTION_TAKE"@.len() != "ACTION_LEAVE"@.len());
    let q = moved(player, action);
    lemma_first_item_at(items, q);
    lemma_first_item_at(items, player);
    if first_lying_at(items, q, j) && first_item_at(items, q) is Some {
        let i = first_item_at(items, q)->0;
        assert(!(i < j) && !(j < i));
    }
    if first_lying_at(items, player, j) && first_item_at(items, player) is Some {
        let i = first_item_at(items, player)->0;
        assert(!(i < j) && !(j < i));
    }
}

/// When an answer can be handled: a step exactly when it stays on the cells that a `usize`
/// can number (so up from any row below the first, left from any column right of the
/// first); taking or leaving exactly when an item lies where the player stands; any other
/// answer always.
pub proof fn lemma_when_answerable(
    player: Position,
    items: Seq<Item>,
    category: Seq<char>,
    action: Seq<char>,
)
    ensures
        category == "MOVE"@ ==> (response_defined(player, items, category, action) <==> {
            &&& action == "ACTION_LEFT"@ ==> player.x > 0
            &&& action == "ACTION_RIGHT"@ ==> player.x < usize::MAX
            &&& action == "ACTION_UP"@ ==> player.y > 0
            &&& action == "ACTION_DOWN"@ ==> player.y < usize::MAX
        }),
        category == "TAKE"@ ==> (response_defined(player, items, category, action) <==> (
        (action == "ACTION_TAKE"@ || action == "ACTION_LEAVE"@) ==> item_lies_at(items, player))),
        category != "MOVE"@ && category != "TAKE"@ ==> response_defined(
            player,
            items,
            category,
            action,
        ),
{
    reveal_strlit("MOVE");
    reveal_strlit("TAKE");
    assert("MOVE"@[0] != "TAKE"@[0]);
    lemma_first_item_at(items, player);
    if first_item_at(items, player) is Some {
        let i = first_item_at(items, player)->0;
        assert(items[i].position == player);
    }
}

proof fn lemma_rows_prefix(player: Position, items: Seq<Item>, m: nat, n: nat)
    requires
        m <= n,
    ensures
        render_rows(player, items, m).len() <= render_rows(player, items, n).len(),
        render_rows(player, items, n).take(render_rows(player, items, m).len() as int)
            =~= render_rows(player, items, m),
    decreases n,
{
    if m < n {
        lemma_rows_prefix(player, items, m, (n - 1) as nat);
        let a = render_rows(player, items, (n - 1) as nat);
        let b = render_rows(player, items, n);
        assert(b == a + render_row(player, items, (n - 1) as usize, MAP_SIZE as nat) + "\n"@);
        assert(b.take(a.len() as int) =~= a);
    }
}

proof fn lemma_row_prefix(player: Position, items: Seq<Item>, y: usize, m: nat, n: nat)
    requires
        m <= n,
    ensures
        render_row(player, items, y, m).len() <= render_row(player, items, y, n).len(),
        render_row(player, items, y, n).take(render_row(player, items, y, m).len() as int)
            =~= render_row(player, items, y, m),
    decreases n,
{
    if m < n {
        lemma_row_prefix(player, items, y, m, (n - 1) as nat);
        let a = render_row(player, items, y, (n - 1) as nat);
        let b = render_row(player, items, y, n);
        assert(b == a + cell_at(player, items, Position { x: (n - 1) as usize, y }));
        assert(b.take(a.len() as int) =~= a);
    }
}

/// Wherever the player stands on the map, the body of the map shows the runner at the
/// player's cell: the cells before it are the rows above it and the cells to its left in its
/// own row.
pub proof fn lemma_player_drawn(player: Position, items: Seq<Item>)
    requires
        player.x < MAP_SIZE,
        player.y < MAP_SIZE,
    ensures
        ({
            let start = (render_rows(player, items, player.y as nat).len() + render_row(
                player,
                items,
                player.y,
                player.x as nat,
            ).len()) as int;
            &&& start + 1 <= render_map(player, items).len()
            &&& render_map(player, items).subrange(start, start + 1) == "\u{1f3c3}"@
        }),
{
    reveal_strlit("\u{1f3c3}");
    let y = player.y;
    let x = player.x;
    let above = render_rows(player, items, y as nat);
    let row_left = render_row(player, items, y, x as nat);
    let row_upto = render_row(player, items, y, (x + 1) as nat);
    let row = render_row(player, items, y, MAP_SIZE as nat);
    let rows_upto = render_rows(player, items, (y + 1) as nat);
    let body = render_map(player, items);
    let start = (above.len() + row_left.len()) as int;
    assert(Position { x: x, y } == player);
    assert(row_upto == row_left + "\u{1f3c3}"@);
    lemma_row_prefix(player, items, y, (x + 1) as nat, MAP_SIZE as nat);
    assert(rows_upto == above + row + "\n"@);
    lemma_rows_prefix(player, items, (y + 1) as nat, MAP_SIZE as nat);
    assert(row[row_left.len() as int] == row_upto[row_left.len() as int]);
    assert(rows_upto[start] == row[row_left.len() as int]);
    assert(body[start] == rows_upto[start]);
    assert(body.subrange(start, start + 1) =~= "\u{1f3c3}"@);
}

proof fn lemma_item_symbol(items: Seq<Item>, q: Position)
    ensures
        !item_lies_at(items, q) ==> item_symbol_at(items, q) == "\u{2b1b}\u{fe0f}"@,
        forall|j: int|
            0 <= j < items.len() && items[j].position == q && (forall|k: int|
                j < k < items.len() ==> items[k].position != q) ==> item_symbol_at(items, q)
                == #[trigger] items[j].symbol@,
    decreases items.len(),
{
    if items.len() > 0 {
        let rest = items.drop_last();
        lemma_item_symbol(rest, q);
        if !item_lies_at(items, q) {
            assert(!item_lies_at(rest, q)) by {
                if item_lies_at(rest, q) {
                    let j = choose|j: int| 0 <= j < rest.len() && rest[j].position == q;
                    assert(items[j] == rest[j]);
                }
            }
            assert(items.last() == items[items.len() - 1]);
        }
        assert forall|j: int|
            0 <= j < items.len() && items[j].position == q && (forall|k: int|
                j < k < items.len() ==> items[k].position != q) implies item_symbol_at(items, q)
            == #[trigger] items[j].symbol@ by {
            if j < items.len() - 1 {
                assert(items.last().position != q);
                assert(rest[j] == items[j]);
                assert forall|k: int| j < k < rest.len() implies rest[k].position != q by {
                    assert(rest[k] == items[k]);
                }
            }
        }
    }
}

/// Every cell of the map is drawn where the cells before it end: the runner at the
/// player's cell; elsewhere the symbol of the last item lying on the cell, or an empty
/// square where none lies there.
pub proof fn lemma_cells_drawn(player: Position, items: Seq<Item>, q: Position)
    requires
        q.x < MAP_SIZE,
        q.y < MAP_SIZE,
    ensures
        ({
            let start = (render_rows(player, items, q.y as nat).len() + render_row(
                player,
                items,
                q.y,
                q.x as nat,
            ).len()) as int;
            let end = (render_rows(player, items, q.y as nat).len() + render_row(
                player,
                items,
                q.y,
                (q.x + 1) as nat,
            ).len()) as int;
            let piece = render_map(player, items).subrange(start, end);
            &&& start <= end <= render_map(player, items).len()
            &&& q == player ==> piece == "\u{1f3c3}"@
            &&& q != player && !item_lies_at(items, q) ==> piece == "\u{2b1b}\u{fe0f}"@
            &&& forall|j: int|
                q != player && 0 <= j < items.len() && items[j].position == q && (forall|k: int|
                    j < k < items.len() ==> items[k].position != q) ==> piece
                    == #[trigger] items[j].symbol@
        }),
{
    let y = q.y;
    let x = q.x;
    let above = render_rows(player, items, y as nat);
    let row_left = render_row(player, items, y, x as nat);
    let row_upto = render_row(player, items, y, (x + 1) as nat);
    let row = render_row(player, items, y, MAP_SIZE as nat);
    let rows_upto = render_rows(player, items, (y + 1) as nat);
    let body = render_map(player, items);
    let start = (above.len() + row_left.len()) as int;
    let end = (above.len() + row_upto.len()) as int;
    let c = cell_at(player, items, Position { x: x, y });
    assert(Position { x: x, y } == q);
    assert(row_upto == row_left + c);
    lemma_row_prefix(player, items, y, (x + 1) as nat, MAP_SIZE as nat);
    assert(rows_upto == above + row + "\n"@);
    lemma_rows_prefix(player, items, (y + 1) as nat, MAP_SIZE as nat);
    assert(body.subrange(start, end) =~= c) by {
        assert forall|t: int| 0 <= t < c.len() implies body.subrange(start, end)[t] == c[t] by {
            assert(row_upto[row_left.len() + t] == c[t]);
            assert(row[row_left.len() + t] == row_upto[row_left.len() + t]);
            assert(rows_upto[start + t] == row[row_left.len() + t]);
            assert(body[start + t] == rows_upto[start + t]);
        }
    }
    lemma_item_symbol(items, q);
}

/// A run of answers can be handled exactly when each answer can be handled where the answers
/// before it leave the player.
pub proof fn lemma_answers_defined_each(player: Position, items: Seq<Item>, answers: Seq<Answer>)
    ensures
        answers_defined(player, items, answers) <==> forall|i: int|
            0 <= i < answers.len() ==> response_defined(
                position_after(player, items, #[trigger] answers.take(i)),
                items,
                answers[i].responded@.category_identifier,
                answers[i].message.action_identifier@,
            ),
    decreases answers.len(),
{
    if answers.len() > 0 {
        let rest = answers.drop_last();
        let k = answers.len() - 1;
        lemma_answers_defined_each(player, items, rest);
        assert(answers.take(k) =~= rest);
        assert forall|i: int| 0 <= i < k implies #[trigger] answers.take(i) == rest.take(i)
            && answers[i] == rest[i] by {
            assert(answers.take(i) =~= rest.take(i));
        }
        if answers_defined(player, items, answers) {
            assert forall|i: int| 0 <= i < answers.len() implies response_defined(
                position_after(player, items, #[trigger] answers.take(i)),
                items,
                answers[i].responded@.category_identifier,
                answers[i].message.action_identifier@,
            ) by {
                if i < k {
                    assert(rest.take(i) == answers.take(i));
                }
            }
        } else {
            let all = forall|i: int|
                0 <= i < answers.len() ==> response_defined(
                    position_after(player, items, #[trigger] answers.take(i)),
                    items,
                    answers[i].responded@.category_identifier,
                    answers[i].message.action_identifier@,
                );
            if all {
                assert forall|i: int| 0 <= i < rest.len() implies response_defined(
                    position_after(player, items, #[trigger] rest.take(i)),
                    items,
                    rest[i].responded@.category_identifier,
                    rest[i].message.action_identifier@,
                ) by {
                    assert(answers.take(i) == rest.take(i));
                }
                assert(answers.take(k) == rest);
            }
        }
    }
}

} // verus!
