//! Presentation-facing state: the decorative background tiling, the life
//! icons, the score readout, and the shared game metadata with its life-loss
//! and score-gain handlers.

use vstd::prelude::*;
use vstd::string::StringExecFns;
use crate::boundary::{GameBonudary, WINDOW_WIDTH};
use crate::geometry::{Translation, DIM_BOUND};
use crate::player::EarnPointEvent;
use crate::world::GameOver;

verus! {

/// Marker for one decorative background tile.
pub struct Grass {}

/// One life indicator; `count` is its 0-based index.
#[derive(Clone, Copy, PartialEq, Eq, Structural, Debug)]
pub struct LifeIcon {
    pub count: u8,
}

/// Marker for the container of the score readout.
pub struct CurrentScoreRoot;

/// Marker for the text surface that shows the current score.
pub struct CurrentScore;

/// Groups the background, life and score handling for a host to install.
pub struct BackgroundPlug;

/// Shared game state: the level only scales fall speeds and never changes
/// in this version; lives start at 3 and only decrease; the score starts at
/// 0 and only increases.
#[derive(Clone, Copy, PartialEq, Eq, Structural, Debug)]
pub struct GameMetadata {
    pub level: u32,
    pub lifes: u8,
    pub scores: u32,
}

impl Default for GameMetadata {
    /// A fresh session: level 1, three lives, no points.
    fn default() -> (r: GameMetadata)
        ensures
            r == (GameMetadata { level: 1, lifes: 3, scores: 0 }),
    {
        GameMetadata { level: 1, lifes: 3, scores: 0 }
    }
}

/// There is one icon per remaining life, and the icon at position `j`
/// carries index `j`.
pub open spec fn icons_match_lives(icons: Seq<LifeIcon>, lifes: u8) -> bool {
    &&& icons.len() == lifes
    &&& forall|j: int| 0 <= j < icons.len() ==> (#[trigger] icons[j]).count == j
}

/// Builds the initial life indicators: one per life, indexed from 0.
pub fn spawn_lifes(game_metadata: &GameMetadata) -> (icons: Vec<LifeIcon>)
    ensures
        icons_match_lives(icons@, game_metadata.lifes),
{
    let mut icons: Vec<LifeIcon> = Vec::new();
    let mut i: u8 = 0;
    while i < game_metadata.lifes
        invariant
            i <= game_metadata.lifes,
            icons@.len() == i,
            forall|j: int| 0 <= j < icons@.len() ==> (#[trigger] icons@[j]).count == j,
        decreases game_metadata.lifes - i,
    {
        icons.push(LifeIcon { count: i });
        i += 1;
    }
    icons
}

/// The decimal digit with value `d`.
pub open spec fn digit_char(d: int) -> char {
    if d == 0 {
        '0'
    } else if d == 1 {
        '1'
    } else if d == 2 {
        '2'
    } else if d == 3 {
        '3'
    } else if d == 4 {
        '4'
    } else if d == 5 {
        '5'
    } else if d == 6 {
        '6'
    } else if d == 7 {
        '7'
    } else if d == 8 {
        '8'
    } else {
        '9'
    }
}

/// The usual decimal rendering of `n`: no sign, and no leading zero except
/// on zero itself.
pub open spec fn spec_decimal(n: nat) -> Seq<char>
    decreases n,
{
    if n < 10 {
        seq![digit_char(n as int)]
    } else {
        spec_decimal(n / 10).push(digit_char((n % 10) as int))
    }
}

/// The one-character string for a single decimal digit.
fn digit_str(d: u32) -> (r: &'static str)
    requires
        d < 10,
    ensures
        r@ == seq![digit_char(d as int)],
{
    if d == 0 {
        proof {
            reveal_strlit("0");
        }
        assert("0"@ =~= seq![digit_char(0)]);
        "0"
    } else if d == 1 {
        proof {
            reveal_strlit("1");
        }
        assert("1"@ =~= seq![digit_char(1)]);
        "1"
    } else if d == 2 {
        proof {
            reveal_strlit("2");
        }
        assert("2"@ =~= seq![digit_char(2)]);
        "2"
    } else if d == 3 {
        proof {
            reveal_strlit("3");
        }
        assert("3"@ =~= seq![digit_char(3)]);
        "3"
    } else if d == 4 {
        proof {
            reveal_strlit("4");
        }
        assert("4"@ =~= seq![digit_char(4)]);
        "4"
    } else if d == 5 {
        proof {
            reveal_strlit("5");
        }
        assert("5"@ =~= seq![digit_char(5)]);
        "5"
    } else if d == 6 {
        proof {
            reveal_strlit("6");
        }
        assert("6"@ =~= seq![digit_char(6)]);
        "6"
    } else if d == 7 {
        proof {
            reveal_strlit("7");
        }
        assert("7"@ =~= seq![digit_char(7)]);
        "7"
    } else if d == 8 {
        proof {
            reveal_strlit("8");
        }
        assert("8"@ =~= seq![digit_char(8)]);
        "8"
    } else {
        proof {
            reveal_strlit("9");
        }
        assert("9"@ =~= seq![digit_char(9)]);
        "9"
    }
}

/// Renders a score as the decimal text shown by the score readout.
pub fn score_text(scores: u32) -> (text: String)
    ensures
        text@ == spec_decimal(scores as nat),
    decreases scores,
{
    if scores < 10 {
        let d = digit_str(scores);
        d.to_owned()
    } else {
        proof {
            vstd::arithmetic::div_mod::lemma_div_decreases(scores as int, 10);
        }
        let mut text = score_text(scores / 10);
        text.append(digit_str(scores % 10));
        proof {
            assert(text@ =~= spec_decimal(scores as nat));
        }
        text
    }
}


/// The score readout: where the panel sits inside the play area and the text
/// it first shows.
pub struct ScorePanel {
    pub bottom: i64,
    pub left: i64,
    pub width: i64,
    pub padding: i64,
    pub text: String,
}

/// Font size of the score readout.
pub const SCORE_FONT_SIZE: i64 = 40;

/// Lays out the score readout: a half-width panel on the upper right of the
/// play area, showing the current score.
pub fn show_scores(game_boundary: &GameBonudary, game_metadata: &GameMetadata) -> (panel: ScorePanel)
    requires
        game_boundary.wf(),
    ensures
        panel.bottom == game_boundary.y_max - SCORE_FONT_SIZE,
        panel.left == game_boundary.x_min + WINDOW_WIDTH / 2,
        panel.width == WINDOW_WIDTH / 2,
        panel.padding == 4,
        panel.text@ == spec_decimal(game_metadata.scores as nat),
{
    ScorePanel {
        bottom: game_boundary.y_max - SCORE_FONT_SIZE,
        left: game_boundary.x_min + WINDOW_WIDTH / 2,
        width: WINDOW_WIDTH / 2,
        padding: 4,
        text: score_text(game_metadata.scores),
    }
}

/// The total of the point values carried by the events.
pub open spec fn spec_sum_scores(s: Seq<EarnPointEvent>) -> int
    decreases s.len(),
{
    if s.len() == 0 {
        0
    } else {
        spec_sum_scores(s.drop_last()) + s.last().scores
    }
}

/// Event point values are never negative, so neither is any sum of them.
pub proof fn lemma_sum_nonneg(s: Seq<EarnPointEvent>)
    ensures
        spec_sum_scores(s) >= 0,
    decreases s.len(),
{
    if s.len() > 0 {
        lemma_sum_nonneg(s.drop_last());
    }
}

/// A prefix never sums to more than the whole list.
pub proof fn lemma_sum_take_le(s: Seq<EarnPointEvent>, i: int)
    requires
        0 <= i <= s.len(),
    ensures
        spec_sum_scores(s.take(i)) <= spec_sum_scores(s),
    decreases s.len() - i,
{
    if i == s.len() {
        assert(s.take(i) =~= s);
    } else {
        assert(s.take(i + 1).drop_last() =~= s.take(i));
        assert(s.take(i + 1).last() == s[i]);
        lemma_sum_take_le(s, i + 1);
    }
}

/// Applies every score event to the running total and, when anything was
/// earned, returns the new text for the score readout.
pub fn update_points(game_metadata: &mut GameMetadata, earn_point_events: &Vec<EarnPointEvent>) -> (text: Option<
    String,
>)
    requires
        old(game_metadata).scores + spec_sum_scores(earn_point_events@) <= u32::MAX,
    ensures
        final(game_metadata).scores == old(game_metadata).scores + spec_sum_scores(
            earn_point_events@,
        ),
        final(game_metadata).lifes == old(game_metadata).lifes,
        final(game_metadata).level == old(game_metadata).level,
        (text is Some) == (earn_point_events@.len() > 0),
        text matches Some(s) ==> s@ == spec_decimal(final(game_metadata).scores as nat),
{
    let ghost events = earn_point_events@;
    let mut i: usize = 0;
    while i < earn_point_events.len()
        invariant
            i <= events.len(),
            earn_point_events@ == events,
            game_metadata.scores == old(game_metadata).scores + spec_sum_scores(
                events.take(i as int),
            ),
            old(game_metadata).scores + spec_sum_scores(events) <= u32::MAX,
            game_metadata.lifes == old(game_metadata).lifes,
            game_metadata.level == old(game_metadata).level,
        decreases events.len() - i,
    {
        proof {
            assert(events.take(i + 1).drop_last() =~= events.take(i as int));
            assert(events.take(i + 1).last() == events[i as int]);
            lemma_sum_take_le(events, i + 1);
        }
        let event = earn_point_events[i];
        game_metadata.scores = game_metadata.scores + event.scores;
        i += 1;
    }
    proof {
        assert(events.take(events.len() as int) =~= events);
    }
    if earn_point_events.len() > 0 {
        Some(score_text(game_metadata.scores))
    } else {
        None
    }
}

/// Reacts to a life-loss report: takes one life (never dropping below
/// zero), removes every life icon whose index no longer names a remaining
/// life, and, the first time the life count reaches zero, raises the
/// game-over signal; `game_over_sent` keeps it from ever being raised twice.
pub fn update_user_life(
    game_metadata: &mut GameMetadata,
    life_icons: &mut Vec<LifeIcon>,
    lose_life_event: bool,
    game_over_sent: &mut bool,
) -> (game_over: Option<GameOver>)
    requires
        icons_match_lives(old(life_icons)@, old(game_metadata).lifes),
    ensures
        final(game_metadata).lifes == (if lose_life_event && old(game_metadata).lifes > 0 {
            old(game_metadata).lifes - 1
        } else {
            old(game_metadata).lifes as int
        }),
        final(game_metadata).lifes <= old(game_metadata).lifes,
        final(game_metadata).scores == old(game_metadata).scores,
        final(game_metadata).level == old(game_metadata).level,
        icons_match_lives(final(life_icons)@, final(game_metadata).lifes),
        (game_over is Some) == (final(game_metadata).lifes == 0 && !*old(game_over_sent)),
        game_over matches Some(g) ==> g.score == 10,
        *final(game_over_sent) == (*old(game_over_sent) || final(game_metadata).lifes == 0),
{
    if lose_life_event && game_metadata.lifes > 0 {
        game_metadata.lifes = game_metadata.lifes - 1;
        life_icons.truncate(game_metadata.lifes as usize);
        proof {
            assert(life_icons@ =~= old(life_icons)@.subrange(0, game_metadata.lifes as int));
        }
    }
    let raise = game_metadata.lifes == 0 && !*game_over_sent;
    if game_metadata.lifes == 0 {
        *game_over_sent = true;
    }
    if raise {
        Some(GameOver { score: 10 })
    } else {
        None
    }
}


/// How many grid steps of the given size fit from `min` to `max`, the
/// starting point included.
pub open spec fn grid_steps(min: int, max: int, step: int) -> int {
    (max - min) / step + 1
}

/// A smaller grid cell stands strictly before a larger one in the
/// column-major layout.
proof fn lemma_grid_index_lt(cc: int, rr: int, c: int, rw: int, rows: int)
    requires
        0 <= cc,
        0 <= rr < rows,
        0 <= rw,
        cc < c || (cc == c && rr < rw),
    ensures
        cc * rows + rr < c * rows + rw,
{
    if cc < c {
        assert(cc * rows + rr < c * rows + rw) by (nonlinear_arith)
            requires
                0 <= rr < rows,
                cc < c,
                0 <= rw,
        ;
    }
}

/// Computes the positions of the decorative background tiles: a grid that
/// starts at the lower-left corner of the play area and steps right and up
/// by the scaled tile size while it stays inside the area, column by column.
/// The host picks the two step sizes from its tile sprite.
pub fn spawn_grass(game_boundary: &GameBonudary, step_x: i64, step_y: i64) -> (tiles: Vec<
    Translation,
>)
    requires
        game_boundary.wf(),
        1 <= step_x <= DIM_BOUND,
        1 <= step_y <= DIM_BOUND,
        grid_steps(game_boundary.x_min as int, game_boundary.x_max as int, step_x as int)
            * grid_steps(game_boundary.y_min as int, game_boundary.y_max as int, step_y as int)
            <= 1_000_000,
    ensures
        ({
            let cols = grid_steps(
                game_boundary.x_min as int,
                game_boundary.x_max as int,
                step_x as int,
            );
            let rows = grid_steps(
                game_boundary.y_min as int,
                game_boundary.y_max as int,
                step_y as int,
            );
            &&& tiles@.len() == cols * rows
            &&& forall|c: int, rw: int|
                0 <= c < cols && 0 <= rw < rows ==> #[trigger] tiles@[c * rows + rw]
                    == (Translation {
                    x: (game_boundary.x_min + c * step_x) as i64,
                    y: (game_boundary.y_min + rw * step_y) as i64,
                })
        }),
{
    let ghost cols = grid_steps(
        game_boundary.x_min as int,
        game_boundary.x_max as int,
        step_x as int,
    );
    let ghost rows = grid_steps(
        game_boundary.y_min as int,
        game_boundary.y_max as int,
        step_y as int,
    );
    proof {
        vstd::arithmetic::div_mod::lemma_div_pos_is_pos(
            game_boundary.x_max - game_boundary.x_min,
            step_x as int,
        );
        vstd::arithmetic::div_mod::lemma_div_pos_is_pos(
            game_boundary.y_max - game_boundary.y_min,
            step_y as int,
        );
    }
    let mut tiles: Vec<Translation> = Vec::new();
    let mut x_curr: i64 = game_boundary.x_min;
    let mut y_curr: i64 = game_boundary.y_min;
    let ghost mut c: int = 0;
    while x_curr <= game_boundary.x_max
        invariant
            game_boundary.wf(),
            1 <= step_x <= DIM_BOUND,
            1 <= step_y <= DIM_BOUND,
            cols == grid_steps(
                game_boundary.x_min as int,
                game_boundary.x_max as int,
                step_x as int,
            ),
            rows == grid_steps(
                game_boundary.y_min as int,
                game_boundary.y_max as int,
                step_y as int,
            ),
            cols * rows <= 1_000_000,
            1 <= rows,
            0 <= c <= cols,
            x_curr == game_boundary.x_min + c * step_x,
            y_curr == game_boundary.y_min,
            tiles@.len() == c * rows,
            forall|cc: int, rr: int|
                0 <= cc < cols && 0 <= rr < rows && cc < c ==> #[trigger] tiles@[cc * rows + rr]
                    == (Translation {
                    x: (game_boundary.x_min + cc * step_x) as i64,
                    y: (game_boundary.y_min + rr * step_y) as i64,
                }),
        decreases game_boundary.x_max + step_x - x_curr,
    {
        proof {
            let dx = game_boundary.x_max - game_boundary.x_min;
            vstd::arithmetic::div_mod::lemma_div_is_ordered(c * step_x, dx, step_x as int);
            vstd::arithmetic::div_mod::lemma_div_by_multiple(c, step_x as int);
            assert(c < cols);
            assert(c * rows + rows <= cols * rows) by (nonlinear_arith)
                requires
                    c + 1 <= cols,
                    0 <= rows,
            ;
        }
        let ghost mut rw: int = 0;
        while y_curr <= game_boundary.y_max
            invariant
                game_boundary.wf(),
                1 <= step_x <= DIM_BOUND,
                1 <= step_y <= DIM_BOUND,
                cols == grid_steps(
                    game_boundary.x_min as int,
                    game_boundary.x_max as int,
                    step_x as int,
                ),
                rows == grid_steps(
                    game_boundary.y_min as int,
                    game_boundary.y_max as int,
                    step_y as int,
                ),
                cols * rows <= 1_000_000,
                0 <= c < cols,
                c * rows + rows <= cols * rows,
                x_curr == game_boundary.x_min + c * step_x,
                0 <= rw <= rows,
                y_curr == game_boundary.y_min + rw * step_y,
                tiles@.len() == c * rows + rw,
                forall|cc: int, rr: int|
                    0 <= cc < cols && 0 <= rr < rows && (cc < c || (cc == c && rr < rw))
                        ==> #[trigger] tiles@[cc * rows + rr] == (Translation {
                        x: (game_boundary.x_min + cc * step_x) as i64,
                        y: (game_boundary.y_min + rr * step_y) as i64,
                    }),
            decreases game_boundary.y_max + step_y - y_curr,
        {
            proof {
                let dy = game_boundary.y_max - game_boundary.y_min;
                vstd::arithmetic::div_mod::lemma_div_is_ordered(rw * step_y, dy, step_y as int);
                vstd::arithmetic::div_mod::lemma_div_by_multiple(rw, step_y as int);
                assert(rw < rows);
                assert(c * rows + rw < c * rows + rows);
            }
            let ghost old_tiles = tiles@;
            tiles.push(Translation { x: x_curr, y: y_curr });
            proof {
                assert forall|cc: int, rr: int|
                    0 <= cc < cols && 0 <= rr < rows && (cc < c || (cc == c && rr < rw + 1))
                        implies #[trigger] tiles@[cc * rows + rr] == (Translation {
                        x: (game_boundary.x_min + cc * step_x) as i64,
                        y: (game_boundary.y_min + rr * step_y) as i64,
                    }) by {
                    if cc == c && rr == rw {
                        assert(tiles@[cc * rows + rr] == old_tiles.push(
                            Translation { x: x_curr, y: y_curr },
                        )[c * rows + rw]);
                    } else {
                        lemma_grid_index_lt(cc, rr, c, rw, rows);
                        assert(tiles@[cc * rows + rr] == old_tiles[cc * rows + rr]);
                    }
                }
                rw = rw + 1;
                assert(rw * step_y == (rw - 1) * step_y + step_y) by (nonlinear_arith);
            }
            y_curr = y_curr + step_y;
        }
        proof {
            let dy = game_boundary.y_max - game_boundary.y_min;
            vstd::arithmetic::div_mod::lemma_multiply_divide_lt(dy, step_y as int, rw);
            assert(rw == rows);
            c = c + 1;
            assert(c * step_x == (c - 1) * step_x + step_x) by (nonlinear_arith);
            assert(c * rows == (c - 1) * rows + rows) by (nonlinear_arith);
        }
        y_curr = game_boundary.y_min;
        x_curr = x_curr + step_x;
    }
    proof {
        let dx = game_boundary.x_max - game_boundary.x_min;
        vstd::arithmetic::div_mod::lemma_multiply_divide_lt(dx, step_x as int, c);
        assert(c == cols);
    }
    tiles
}

} // verus!
