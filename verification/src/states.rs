use vstd::prelude::*;

verus! {

/// The screens the game moves between.
#[derive(Debug, Clone, Copy, PartialEq, Eq, Hash, Structural)]
pub enum GameState {
    MainMenu,
    MainGame,
    ControlMenu,
    GameOver,
}

/// `a - b`, or zero where `b` is the larger.
pub open spec fn saturating_diff(a: usize, b: usize) -> usize {
    if a >= b { (a - b) as usize } else { 0 }
}

/// The frame that follows `curr_index` in a sprite-sheet row that starts at
/// `offset` and holds `len` frames: the position of `curr_index` within the
/// row (zero when it lies before the row) moves one step on, wrapping round
/// at the end of the row.
pub open spec fn row_next_index(offset: usize, len: usize, curr_index: usize) -> int {
    offset + (saturating_diff(curr_index, offset) + 1) % (len as int)
}

/// Whether stepping on from `curr_index` can be computed in `usize`: the step
/// past the position within the row must not overflow.
pub open spec fn row_step_fits(offset: usize, curr_index: usize) -> bool {
    saturating_diff(curr_index, offset) < usize::MAX
}

/// The frame reached from `curr_index` after `steps` frame advances.
pub open spec fn row_after_steps(offset: usize, len: usize, curr_index: usize, steps: nat) -> int
    decreases steps,
{
    if steps == 0 {
        curr_index as int
    } else {
        row_next_index(offset, len, row_after_steps(offset, len, curr_index, (steps - 1) as nat) as usize)
    }
}

/// Advancing an animation always lands on a frame of the current row,
/// whichever frame was shown before (one of another row included).
pub proof fn lemma_next_index_in_row(offset: usize, len: usize, curr_index: usize)
    requires
        len > 0,
    ensures
        offset <= row_next_index(offset, len, curr_index) < offset + len,
{
    vstd::arithmetic::div_mod::lemma_mod_bound(saturating_diff(curr_index, offset) + 1, len as int);
}

/// Within a row, `steps` advances move the frame `steps` places on, wrapping
/// round at the end of the row.
pub proof fn lemma_row_after_steps(offset: usize, len: usize, curr_index: usize, steps: nat)
    requires
        len > 0,
        offset + len <= usize::MAX,
        offset <= curr_index < offset + len,
    ensures
        row_after_steps(offset, len, curr_index, steps)
            == offset + ((curr_index - offset) + steps) % (len as int),
    decreases steps,
{
    let k = curr_index - offset;
    if steps == 0 {
        vstd::arithmetic::div_mod::lemma_small_mod(k as nat, len as nat);
    } else {
        lemma_row_after_steps(offset, len, curr_index, (steps - 1) as nat);
        let prev = row_after_steps(offset, len, curr_index, (steps - 1) as nat);
        let m = (k + steps - 1) % (len as int);
        vstd::arithmetic::div_mod::lemma_mod_bound(k + steps - 1, len as int);
        assert(prev == offset + m);
        assert(saturating_diff(prev as usize, offset) == m);
        vstd::arithmetic::div_mod::lemma_add_mod_noop_right(1, k + steps - 1, len as int);
    }
}

/// An animation loops: after as many advances as its row has frames, a frame
/// of the row is shown again.
pub proof fn lemma_animation_loops(offset: usize, len: usize, curr_index: usize)
    requires
        len > 0,
        offset + len <= usize::MAX,
        offset <= curr_index < offset + len,
    ensures
        row_after_steps(offset, len, curr_index, len as nat) == curr_index,
{
    lemma_row_after_steps(offset, len, curr_index, len as nat);
    let k = curr_index - offset;
    vstd::arithmetic::div_mod::lemma_mod_add_multiples_vanish(k, len as int);
    vstd::arithmetic::div_mod::lemma_small_mod(k as nat, len as nat);
}

/// Where an animation's frames lie in its sprite sheet: a row given by the
/// index of its first frame and its number of frames.
pub trait SpriteLocation {
    /// The row of the current animation: first frame and number of frames.
    spec fn row(&self) -> (usize, usize);

    /// Whether the sprite is drawn mirrored.
    spec fn flipped(&self) -> bool;

    /// The row of the current animation.
    fn location(&self) -> (r: (usize, usize))
        ensures
            r == self.row(),
            r.1 > 0,
            r.0 + r.1 <= usize::MAX,
    ;

    /// The frame to show after `curr_index`.
    fn next_index(&self, curr_index: usize) -> (r: usize)
        requires
            row_step_fits(self.row().0, curr_index),
        ensures
            r == row_next_index(self.row().0, self.row().1, curr_index),
    ;

    /// Whether the sprite is drawn mirrored.
    fn is_flip(&self) -> (r: bool)
        ensures
            r == self.flipped(),
    ;
}

/// The animations of the player.
pub enum PlayerState {
    Death,
    Run,
    Jump,
    Crouch,
    Idle,
}

/// The player's current animation and facing.
pub struct PlayerAnimationInfo {
    pub state: PlayerState,
    pub is_flip: bool,
}

impl SpriteLocation for PlayerAnimationInfo {
    open spec fn row(&self) -> (usize, usize) {
        match self.state {
            PlayerState::Death => (0, 8),
            PlayerState::Run => (8, 6),
            PlayerState::Jump => (16, 2),
            PlayerState::Crouch => (24, 3),
            PlayerState::Idle => (32, 5),
        }
    }

    open spec fn flipped(&self) -> bool {
        self.is_flip
    }

    fn location(&self) -> (r: (usize, usize)) {
        match &self.state {
            PlayerState::Death => (0 * 8, 8),
            PlayerState::Run => (1 * 8, 6),
            PlayerState::Jump => (2 * 8, 2),
            PlayerState::Crouch => (3 * 8, 3),
            PlayerState::Idle => (4 * 8, 5),
        }
    }

    fn next_index(&self, curr_index: usize) -> (r: usize) {
        let (index_offset, col_length) = self.location();
        let mut next_index = curr_index.saturating_sub(index_offset);
        next_index = (next_index + 1) % col_length;
        next_index + index_offset
    }

    fn is_flip(&self) -> (r: bool)
        ensures
            r == self.is_flip,
    {
        self.is_flip
    }
}

/// The animations of an enemy.
pub enum EnemyState {
    Death,
    Run,
    Idle,
}

/// An enemy's current animation and facing.
pub struct EnemyAnimationInfo {
    pub state: EnemyState,
    pub is_flip: bool,
}

impl SpriteLocation for EnemyAnimationInfo {
    open spec fn row(&self) -> (usize, usize) {
        match self.state {
            EnemyState::Death => (0, 8),
            EnemyState::Run => (8, 6),
            EnemyState::Idle => (32, 5),
        }
    }

    open spec fn flipped(&self) -> bool {
        self.is_flip
    }

    fn location(&self) -> (r: (usize, usize)) {
        match &self.state {
            EnemyState::Death => (0 * 8, 8),
            EnemyState::Run => (1 * 8, 6),
            EnemyState::Idle => (4 * 8, 5),
        }
    }

    fn next_index(&self, curr_index: usize) -> (r: usize) {
        let (index_offset, col_length) = self.location();
        let mut next_index = curr_index.saturating_sub(index_offset);
        next_index = (next_index + 1) % col_length;
        next_index + index_offset
    }

    fn is_flip(&self) -> (r: bool)
        ensures
            r == self.is_flip,
    {
        self.is_flip
    }
}

/// The animations of a civilian.
pub enum CivilianState {
    Death,
    Run,
    Idle,
}

/// A civilian's current animation and facing.
pub struct CivilianAnimationInfo {
    pub state: CivilianState,
    pub is_flip: bool,
}

impl SpriteLocation for CivilianAnimationInfo {
    open spec fn row(&self) -> (usize, usize) {
        match self.state {
            CivilianState::Death => (0, 8),
            CivilianState::Run => (8, 6),
            CivilianState::Idle => (32, 5),
        }
    }

    open spec fn flipped(&self) -> bool {
        self.is_flip
    }

    fn location(&self) -> (r: (usize, usize)) {
        match &self.state {
            CivilianState::Death => (0 * 8, 8),
            CivilianState::Run => (1 * 8, 6),
            CivilianState::Idle => (4 * 8, 5),
        }
    }

    fn next_index(&self, curr_index: usize) -> (r: usize) {
        let (index_offset, col_length) = self.location();
        let mut next_index = curr_index.saturating_sub(index_offset);
        next_index = (next_index + 1) % col_length;
        next_index + index_offset
    }

    fn is_flip(&self) -> (r: bool)
        ensures
            r == self.is_flip,
    {
        self.is_flip
    }
}

/// A player sprite is drawn mirrored exactly when its `is_flip` field says so,
/// in every animation state.
pub proof fn lemma_player_mirroring_follows_field(info: PlayerAnimationInfo)
    ensures
        info.flipped() == info.is_flip,
{
}

/// An enemy sprite is drawn mirrored exactly when its `is_flip` field says so,
/// in every animation state.
pub proof fn lemma_enemy_mirroring_follows_field(info: EnemyAnimationInfo)
    ensures
        info.flipped() == info.is_flip,
{
}

/// A civilian sprite is drawn mirrored exactly when its `is_flip` field says
/// so, in every animation state.
pub proof fn lemma_civilian_mirroring_follows_field(info: CivilianAnimationInfo)
    ensures
        info.flipped() == info.is_flip,
{
}

} // verus!
