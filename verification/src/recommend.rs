//! The pattern recommender: scores every pattern for the time of day and
//! the recent history, and ranks them.

use vstd::prelude::*;
use vstd::string::StringExecFns;

verus! {

/// Time of day.
#[derive(Debug, Clone, Copy, PartialEq, Eq, Structural)]
pub enum FfiTimeOfDay {
    Morning,
    Afternoon,
    Evening,
    Night,
}

/// What a session is for.
#[derive(Debug, Clone, Copy, PartialEq, Eq, Structural)]
pub enum Goal {
    Sleep,
    Stress,
    Focus,
    General,
    Energy,
}

/// The time of day of an hour of the clock: morning from 6, afternoon from
/// 12, evening from 18, night from 22 and before 6.
pub open spec fn time_of_hour(hour: u8) -> FfiTimeOfDay {
    if hour <= 5 {
        FfiTimeOfDay::Night
    } else if hour <= 11 {
        FfiTimeOfDay::Morning
    } else if hour <= 17 {
        FfiTimeOfDay::Afternoon
    } else if hour <= 21 {
        FfiTimeOfDay::Evening
    } else {
        FfiTimeOfDay::Night
    }
}

/// The arousal that suits a time of day, in millionths.
pub open spec fn arousal_for(t: FfiTimeOfDay) -> i64 {
    match t {
        FfiTimeOfDay::Morning => 300_000,
        FfiTimeOfDay::Afternoon => 0,
        FfiTimeOfDay::Evening => -500_000i64,
        FfiTimeOfDay::Night => -800_000i64,
    }
}

/// The goal that suits a time of day.
pub open spec fn goal_for(t: FfiTimeOfDay) -> Goal {
    match t {
        FfiTimeOfDay::Morning => Goal::Energy,
        FfiTimeOfDay::Afternoon => Goal::Focus,
        FfiTimeOfDay::Evening => Goal::Stress,
        FfiTimeOfDay::Night => Goal::Sleep,
    }
}

/// The name of a goal.
pub open spec fn goal_name(g: Goal) -> Seq<char> {
    match g {
        Goal::Sleep => "sleep"@,
        Goal::Stress => "stress"@,
        Goal::Focus => "focus"@,
        Goal::General => "general"@,
        Goal::Energy => "energy"@,
    }
}

impl FfiTimeOfDay {
    /// The time of day of the hour `hour`.
    pub fn from_hour(hour: u8) -> (r: Self)
        ensures
            r == time_of_hour(hour),
    {
        if hour <= 5 {
            FfiTimeOfDay::Night
        } else if hour <= 11 {
            FfiTimeOfDay::Morning
        } else if hour <= 17 {
            FfiTimeOfDay::Afternoon
        } else if hour <= 21 {
            FfiTimeOfDay::Evening
        } else {
            FfiTimeOfDay::Night
        }
    }

    /// The arousal that suits this time of day.
    pub fn desired_arousal(&self) -> (r: i64)
        ensures
            r == arousal_for(*self),
    {
        match self {
            FfiTimeOfDay::Morning => 300_000,
            FfiTimeOfDay::Afternoon => 0,
            FfiTimeOfDay::Evening => -500_000,
            FfiTimeOfDay::Night => -800_000,
        }
    }

    /// The goal that suits this time of day.
    pub fn goal(&self) -> (r: Goal)
        ensures
            r == goal_for(*self),
    {
        match self {
            FfiTimeOfDay::Morning => Goal::Energy,
            FfiTimeOfDay::Afternoon => Goal::Focus,
            FfiTimeOfDay::Evening => Goal::Stress,
            FfiTimeOfDay::Night => Goal::Sleep,
        }
    }

    /// The name of the goal that suits this time of day.
    pub fn desired_goal(&self) -> (r: &'static str)
        ensures
            r@ == goal_name(goal_for(*self)),
    {
        match self {
            FfiTimeOfDay::Morning => "energy",
            FfiTimeOfDay::Afternoon => "focus",
            FfiTimeOfDay::Evening => "stress",
            FfiTimeOfDay::Night => "sleep",
        }
    }
}

/// A recommendation: a pattern, its score in millionths, and the reason.
#[derive(Debug)]
pub struct FfiPatternRecommendation {
    pub pattern_id: String,
    pub score: i64,
    pub reason: String,
}

/// Mathematical value of a [`FfiPatternRecommendation`].
pub struct RecommendationView {
    pub pattern_id: Seq<char>,
    pub score: i64,
    pub reason: Seq<char>,
}

impl View for FfiPatternRecommendation {
    type V = RecommendationView;

    open spec fn view(&self) -> RecommendationView {
        RecommendationView {
            pattern_id: self.pattern_id@,
            score: self.score,
            reason: self.reason@,
        }
    }
}

impl Clone for FfiPatternRecommendation {
    fn clone(&self) -> (r: Self)
        ensures
            r@ == self@,
    {
        FfiPatternRecommendation {
            pattern_id: self.pattern_id.clone(),
            score: self.score,
            reason: self.reason.clone(),
        }
    }
}

/// The values of a sequence of recommendations.
pub open spec fn recommendation_views(s: Seq<FfiPatternRecommendation>) -> Seq<
    RecommendationView,
> {
    s.map_values(|r: FfiPatternRecommendation| r@)
}

/// The pattern ids that the recommender scores, in the order in which it
/// scores them.
#[derive(Debug, Clone, Copy, PartialEq, Eq, Structural)]
pub enum KnownPattern {
    Relaxing,
    BoxBreathing,
    Calm,
    Coherence,
    DeepRelax,
    SevenEleven,
    Awake,
    Triangle,
    Tactical,
    Buteyko,
    WimHof,
}

/// What the recommender knows of a pattern: its arousal in millionths, its
/// complexity from 1 to 3, and up to two goals that it is best for.
#[derive(Debug, Clone, Copy)]
pub struct PatternMeta {
    pub pattern: KnownPattern,
    pub arousal: i64,
    pub complexity: u8,
    pub best_for: (Goal, Option<Goal>),
}

/// The id of a known pattern.
pub open spec fn known_id(p: KnownPattern) -> Seq<char> {
    match p {
        KnownPattern::Relaxing => "4-7-8"@,
        KnownPattern::BoxBreathing => "box"@,
        KnownPattern::Calm => "calm"@,
        KnownPattern::Coherence => "coherence"@,
        KnownPattern::DeepRelax => "deep-relax"@,
        KnownPattern::SevenEleven => "7-11"@,
        KnownPattern::Awake => "awake"@,
        KnownPattern::Triangle => "triangle"@,
        KnownPattern::Tactical => "tactical"@,
        KnownPattern::Buteyko => "buteyko"@,
        KnownPattern::WimHof => "wim-hof"@,
    }
}

/// The table of what the recommender knows, in scoring order.
pub open spec fn pattern_metadata() -> Seq<PatternMeta> {
    seq![
        PatternMeta {
            pattern: KnownPattern::Relaxing,
            arousal: -800_000i64,
            complexity: 1,
            best_for: (Goal::Sleep, Some(Goal::Stress)),
        },
        PatternMeta {
            pattern: KnownPattern::BoxBreathing,
            arousal: 0,
            complexity: 1,
            best_for: (Goal::Focus, Some(Goal::General)),
        },
        PatternMeta {
            pattern: KnownPattern::Calm,
            arousal: -300_000i64,
            complexity: 1,
            best_for: (Goal::General, Some(Goal::Stress)),
        },
        PatternMeta {
            pattern: KnownPattern::Coherence,
            arousal: -500_000i64,
            complexity: 2,
            best_for: (Goal::Focus, Some(Goal::General)),
        },
        PatternMeta {
            pattern: KnownPattern::DeepRelax,
            arousal: -900_000i64,
            complexity: 1,
            best_for: (Goal::Stress, Some(Goal::Sleep)),
        },
        PatternMeta {
            pattern: KnownPattern::SevenEleven,
            arousal: -1_000_000i64,
            complexity: 2,
            best_for: (Goal::Stress, Some(Goal::Sleep)),
        },
        PatternMeta {
            pattern: KnownPattern::Awake,
            arousal: 800_000,
            complexity: 2,
            best_for: (Goal::Energy, None),
        },
        PatternMeta {
            pattern: KnownPattern::Triangle,
            arousal: 200_000,
            complexity: 1,
            best_for: (Goal::General, Some(Goal::Focus)),
        },
        PatternMeta {
            pattern: KnownPattern::Tactical,
            arousal: 100_000,
            complexity: 2,
            best_for: (Goal::Focus, None),
        },
        PatternMeta {
            pattern: KnownPattern::Buteyko,
            arousal: -200_000i64,
            complexity: 3,
            best_for: (Goal::General, None),
        },
        PatternMeta {
            pattern: KnownPattern::WimHof,
            arousal: 1_000_000,
            complexity: 3,
            best_for: (Goal::Energy, None),
        },
    ]
}

/// Whether the pattern is best for the goal.
pub open spec fn is_best_for(m: PatternMeta, g: Goal) -> bool {
    m.best_for.0 == g || m.best_for.1 == Some(g)
}

/// How often `id` occurs in `recent`.
pub open spec fn occurrences(recent: Seq<Seq<char>>, id: Seq<char>) -> nat
    decreases recent.len(),
{
    if recent.len() == 0 {
        0
    } else {
        occurrences(recent.drop_last(), id) + if recent.last() == id {
            1nat
        } else {
            0nat
        }
    }
}

/// `x` where it is positive, zero otherwise.
pub open spec fn at_least_zero(x: int) -> int {
    if x < 0 {
        0
    } else {
        x
    }
}

/// The absolute difference of two arousal values.
pub open spec fn arousal_gap(a: i64, b: i64) -> int {
    if a >= b {
        a - b
    } else {
        b - a
    }
}

/// Up to 40 points for an arousal close to the desired one: 30 points are
/// lost for each unit of distance.
pub open spec fn arousal_score(m: PatternMeta, t: FfiTimeOfDay) -> int {
    at_least_zero(40_000_000 - arousal_gap(m.arousal, arousal_for(t)) * 30)
}

/// 30 points where the pattern is best for the goal of the time of day.
pub open spec fn goal_score(m: PatternMeta, t: FfiTimeOfDay) -> int {
    if is_best_for(m, goal_for(t)) {
        30_000_000
    } else {
        0
    }
}

/// Up to 20 points for variety: 10 are lost for each recent use.
pub open spec fn variety_score(times_recent: nat) -> int {
    at_least_zero(20_000_000 - times_recent * 10_000_000)
}

/// 3 points for each step of complexity below 4.
pub open spec fn complexity_score(m: PatternMeta) -> int {
    (4 - m.complexity) * 3_000_000
}

/// The points that a pattern has for a time of day of its own.
pub open spec fn time_bonus(m: PatternMeta, t: FfiTimeOfDay) -> int {
    if t == FfiTimeOfDay::Morning && m.pattern == KnownPattern::Awake {
        15_000_000
    } else if t == FfiTimeOfDay::Night && m.pattern == KnownPattern::Relaxing {
        15_000_000
    } else if t == FfiTimeOfDay::Afternoon && m.pattern == KnownPattern::BoxBreathing {
        10_000_000
    } else {
        0
    }
}

/// The score of a pattern at a time of day, used `times_recent` times of
/// late.
pub open spec fn score_of(m: PatternMeta, t: FfiTimeOfDay, times_recent: nat) -> int {
    arousal_score(m, t) + goal_score(m, t) + variety_score(times_recent) + complexity_score(m)
        + time_bonus(m, t)
}

/// The reason given for a goal.
pub open spec fn goal_reason(g: Goal) -> Seq<char> {
    match g {
        Goal::Sleep => "Great for sleep"@,
        Goal::Focus => "Great for focus"@,
        Goal::Stress => "Great for stress relief"@,
        Goal::Energy => "Great for energy"@,
        Goal::General => "Recommended for you"@,
    }
}

/// The reason given with a recommendation: that of the time of day where
/// the pattern has one, else that of the goal where it matches, else the
/// novelty where the pattern was not used of late.
pub open spec fn reason_of(m: PatternMeta, t: FfiTimeOfDay, times_recent: nat) -> Seq<char> {
    if t == FfiTimeOfDay::Morning && m.pattern == KnownPattern::Awake {
        "Perfect for morning energy"@
    } else if t == FfiTimeOfDay::Night && m.pattern == KnownPattern::Relaxing {
        "Ideal for sleep"@
    } else if t == FfiTimeOfDay::Afternoon && m.pattern == KnownPattern::BoxBreathing {
        "Great for afternoon focus"@
    } else if is_best_for(m, goal_for(t)) {
        goal_reason(goal_for(t))
    } else if times_recent == 0 {
        "Try something new"@
    } else {
        "Recommended for you"@
    }
}

/// The recommendation of one pattern.
pub open spec fn scored(m: PatternMeta, t: FfiTimeOfDay, recent: Seq<Seq<char>>) -> RecommendationView {
    let times = occurrences(recent, known_id(m.pattern));
    RecommendationView {
        pattern_id: known_id(m.pattern),
        score: score_of(m, t, times) as i64,
        reason: reason_of(m, t, times),
    }
}

/// The recommendations of the first `n` patterns of the table, in table
/// order.
pub open spec fn scored_all(t: FfiTimeOfDay, recent: Seq<Seq<char>>, n: nat) -> Seq<
    RecommendationView,
>
    recommends
        n <= pattern_metadata().len(),
    decreases n,
{
    if n == 0 {
        Seq::<RecommendationView>::empty()
    } else {
        scored_all(t, recent, (n - 1) as nat).push(scored(pattern_metadata()[n - 1], t, recent))
    }
}

/// `x` put into the ranking `ranked`: behind everything that scores at
/// least as high, before everything that scores lower.
pub open spec fn insert_ranked(ranked: Seq<RecommendationView>, x: RecommendationView) -> Seq<
    RecommendationView,
>
    decreases ranked.len(),
{
    if ranked.len() == 0 {
        seq![x]
    } else if ranked.last().score >= x.score {
        ranked.push(x)
    } else {
        insert_ranked(ranked.drop_last(), x).push(ranked.last())
    }
}

/// The ranking of `s`: highest score first, equal scores in the order in
/// which they stand in `s`.
pub open spec fn rank(s: Seq<RecommendationView>) -> Seq<RecommendationView>
    decreases s.len(),
{
    if s.len() == 0 {
        Seq::<RecommendationView>::empty()
    } else {
        insert_ranked(rank(s.drop_last()), s.last())
    }
}

/// No recommendation scores higher than one before it.
pub open spec fn descending(s: Seq<RecommendationView>) -> bool {
    forall|i: int, j: int| 0 <= i < j < s.len() ==> (#[trigger] s[i]).score >= (#[trigger] s[j]).score
}

/// Where `x` goes in `ranked`: the count of leading entries that stay
/// before it.
pub open spec fn rank_position(ranked: Seq<RecommendationView>, x: RecommendationView) -> int
    decreases ranked.len(),
{
    if ranked.len() == 0 {
        0
    } else if ranked.last().score >= x.score {
        ranked.len() as int
    } else {
        rank_position(ranked.drop_last(), x)
    }
}

/// Putting `x` into a ranking is inserting it at its position.
pub proof fn lemma_insert_ranked(ranked: Seq<RecommendationView>, x: RecommendationView)
    ensures
        0 <= rank_position(ranked, x) <= ranked.len(),
        insert_ranked(ranked, x) == ranked.insert(rank_position(ranked, x), x),
        forall|j: int|
            rank_position(ranked, x) <= j < ranked.len() ==> (#[trigger] ranked[j]).score
                < x.score,
        rank_position(ranked, x) > 0 ==> ranked[rank_position(ranked, x) - 1].score >= x.score,
    decreases ranked.len(),
{
    if ranked.len() == 0 {
        assert(insert_ranked(ranked, x) =~= ranked.insert(0, x));
    } else if ranked.last().score >= x.score {
        assert(insert_ranked(ranked, x) =~= ranked.insert(ranked.len() as int, x));
    } else {
        let rest = ranked.drop_last();
        lemma_insert_ranked(rest, x);
        let p = rank_position(rest, x);
        assert(insert_ranked(ranked, x) =~= ranked.insert(p, x));
        assert forall|j: int| p <= j < ranked.len() implies (#[trigger] ranked[j]).score
            < x.score by {
            if j < rest.len() {
                assert(ranked[j] == rest[j]);
            }
        }
        if p > 0 {
            assert(ranked[p - 1] == rest[p - 1]);
        }
    }
}

/// Putting an entry into a descending ranking leaves it descending, with
/// the same entries and one more.
pub proof fn lemma_insert_keeps_descending(ranked: Seq<RecommendationView>, x: RecommendationView)
    requires
        descending(ranked),
    ensures
        descending(insert_ranked(ranked, x)),
        insert_ranked(ranked, x).len() == ranked.len() + 1,
        insert_ranked(ranked, x).to_multiset() == ranked.to_multiset().insert(x),
{
    lemma_insert_ranked(ranked, x);
    let p = rank_position(ranked, x);
    let r = ranked.insert(p, x);
    assert forall|i: int, j: int| 0 <= i < j < r.len() implies (#[trigger] r[i]).score >= (
    #[trigger] r[j]).score by {
        if j < p {
            assert(r[i] == ranked[i] && r[j] == ranked[j]);
        } else if j == p {
            assert(r[i] == ranked[i]);
            if p > 0 {
                assert(ranked[i].score >= ranked[p - 1].score || i == p - 1);
            }
        } else if i < p {
            assert(r[i] == ranked[i] && r[j] == ranked[j - 1]);
        } else if i == p {
            assert(r[j] == ranked[j - 1]);
        } else {
            assert(r[i] == ranked[i - 1] && r[j] == ranked[j - 1]);
        }
    }
    vstd::seq_lib::to_multiset_insert(ranked, p, x);
}

/// A ranking is descending and holds exactly the entries that were ranked.
pub proof fn lemma_rank(s: Seq<RecommendationView>)
    ensures
        descending(rank(s)),
        rank(s).len() == s.len(),
        rank(s).to_multiset() == s.to_multiset(),
    decreases s.len(),
{
    if s.len() == 0 {
        assert(rank(s) =~= s);
    } else {
        lemma_rank(s.drop_last());
        lemma_insert_keeps_descending(rank(s.drop_last()), s.last());
        assert(s.drop_last().push(s.last()) =~= s);
        vstd::seq_lib::to_multiset_insert(s.drop_last(), s.len() - 1, s.last());
        assert(s.drop_last().insert(s.len() - 1, s.last()) =~= s);
    }
}

/// One recommendation is made for each pattern scored.
pub proof fn lemma_scored_all_len(t: FfiTimeOfDay, recent: Seq<Seq<char>>, n: nat)
    ensures
        scored_all(t, recent, n).len() == n,
    decreases n,
{
    if n > 0 {
        lemma_scored_all_len(t, recent, (n - 1) as nat);
    }
}

/// The position at which a new entry goes into a ranking is the only one
/// that has lower scores behind it and no lower score just before it.
pub proof fn lemma_rank_position_unique(
    ranked: Seq<RecommendationView>,
    x: RecommendationView,
    p: int,
)
    requires
        0 <= p <= ranked.len(),
        forall|j: int| p <= j < ranked.len() ==> (#[trigger] ranked[j]).score < x.score,
        p > 0 ==> ranked[p - 1].score >= x.score,
    ensures
        p == rank_position(ranked, x),
{
    lemma_insert_ranked(ranked, x);
    let q = rank_position(ranked, x);
    if p < q {
        assert(ranked[q - 1].score < x.score);
    }
    if q < p {
        assert(ranked[p - 1].score < x.score);
    }
}

fn known_id_string(p: KnownPattern) -> (r: String)
    ensures
        r@ == known_id(p),
{
    match p {
        KnownPattern::Relaxing => String::from_str("4-7-8"),
        KnownPattern::BoxBreathing => String::from_str("box"),
        KnownPattern::Calm => String::from_str("calm"),
        KnownPattern::Coherence => String::from_str("coherence"),
        KnownPattern::DeepRelax => String::from_str("deep-relax"),
        KnownPattern::SevenEleven => String::from_str("7-11"),
        KnownPattern::Awake => String::from_str("awake"),
        KnownPattern::Triangle => String::from_str("triangle"),
        KnownPattern::Tactical => String::from_str("tactical"),
        KnownPattern::Buteyko => String::from_str("buteyko"),
        KnownPattern::WimHof => String::from_str("wim-hof"),
    }
}

fn meta(pattern: KnownPattern, arousal: i64, complexity: u8, first: Goal, second: Option<Goal>) -> (r:
    PatternMeta)
    ensures
        r == (PatternMeta { pattern, arousal, complexity, best_for: (first, second) }),
{
    PatternMeta { pattern, arousal, complexity, best_for: (first, second) }
}

/// The table of what the recommender knows, in scoring order.
pub fn metadata() -> (r: Vec<PatternMeta>)
    ensures
        r@ == pattern_metadata(),
{
    let mut r: Vec<PatternMeta> = Vec::new();
    r.push(meta(KnownPattern::Relaxing, -800_000, 1, Goal::Sleep, Some(Goal::Stress)));
    r.push(meta(KnownPattern::BoxBreathing, 0, 1, Goal::Focus, Some(Goal::General)));
    r.push(meta(KnownPattern::Calm, -300_000, 1, Goal::General, Some(Goal::Stress)));
    r.push(meta(KnownPattern::Coherence, -500_000, 2, Goal::Focus, Some(Goal::General)));
    r.push(meta(KnownPattern::DeepRelax, -900_000, 1, Goal::Stress, Some(Goal::Sleep)));
    r.push(meta(KnownPattern::SevenEleven, -1_000_000, 2, Goal::Stress, Some(Goal::Sleep)));
    r.push(meta(KnownPattern::Awake, 800_000, 2, Goal::Energy, None));
    r.push(meta(KnownPattern::Triangle, 200_000, 1, Goal::General, Some(Goal::Focus)));
    r.push(meta(KnownPattern::Tactical, 100_000, 2, Goal::Focus, None));
    r.push(meta(KnownPattern::Buteyko, -200_000, 3, Goal::General, None));
    r.push(meta(KnownPattern::WimHof, 1_000_000, 3, Goal::Energy, None));
    assert(r@ =~= pattern_metadata());
    r
}

fn has_goal(m: &PatternMeta, g: Goal) -> (r: bool)
    ensures
        r == is_best_for(*m, g),
{
    if m.best_for.0 == g {
        true
    } else {
        match m.best_for.1 {
            Some(second) => second == g,
            None => false,
        }
    }
}

/// The score of the pattern `m` at the time of day `t`, used
/// `times_recent` times of late.
pub fn score(m: &PatternMeta, t: FfiTimeOfDay, times_recent: usize) -> (r: i64)
    ensures
        r == score_of(*m, t, times_recent as nat),
{
    let desired = t.desired_arousal();
    let gap: i128 = if m.arousal >= desired {
        m.arousal as i128 - desired as i128
    } else {
        desired as i128 - m.arousal as i128
    };
    let closeness: i128 = 40_000_000 - gap * 30;
    let mut total: i128 = if closeness < 0 {
        0
    } else {
        closeness
    };
    if has_goal(m, t.goal()) {
        total = total + 30_000_000;
    }
    if times_recent == 0 {
        total = total + 20_000_000;
    } else if times_recent == 1 {
        total = total + 10_000_000;
    }
    total = total + (4 - m.complexity as i128) * 3_000_000;
    match (t, m.pattern) {
        (FfiTimeOfDay::Morning, KnownPattern::Awake) => {
            total = total + 15_000_000;
        },
        (FfiTimeOfDay::Night, KnownPattern::Relaxing) => {
            total = total + 15_000_000;
        },
        (FfiTimeOfDay::Afternoon, KnownPattern::BoxBreathing) => {
            total = total + 10_000_000;
        },
        _ => {},
    }
    total as i64
}

fn goal_reason_text(g: Goal) -> (r: &'static str)
    ensures
        r@ == goal_reason(g),
{
    match g {
        Goal::Sleep => "Great for sleep",
        Goal::Focus => "Great for focus",
        Goal::Stress => "Great for stress relief",
        Goal::Energy => "Great for energy",
        Goal::General => "Recommended for you",
    }
}

fn reason(m: &PatternMeta, t: FfiTimeOfDay, times_recent: usize) -> (r: String)
    ensures
        r@ == reason_of(*m, t, times_recent as nat),
{
    let text = match (t, m.pattern) {
        (FfiTimeOfDay::Morning, KnownPattern::Awake) => "Perfect for morning energy",
        (FfiTimeOfDay::Night, KnownPattern::Relaxing) => "Ideal for sleep",
        (FfiTimeOfDay::Afternoon, KnownPattern::BoxBreathing) => "Great for afternoon focus",
        _ => if has_goal(m, t.goal()) {
            goal_reason_text(t.goal())
        } else if times_recent == 0 {
            "Try something new"
        } else {
            "Recommended for you"
        },
    };
    String::from_str(text)
}

/// The recommender: it remembers the patterns used of late, newest first,
/// five at most.
pub struct PatternRecommender {
    recent_patterns: Vec<String>,
}

/// The texts of a sequence of strings.
pub open spec fn texts(s: Seq<String>) -> Seq<Seq<char>> {
    s.map_values(|x: String| x@)
}

/// Number of recent patterns that the recommender remembers.
pub const HISTORY_LIMIT: usize = 5;

/// The best `limit` recommendations for the hour `local_hour`, given the
/// patterns used of late.
pub open spec fn recommendations(recent: Seq<Seq<char>>, local_hour: u8, limit: nat) -> Seq<
    RecommendationView,
> {
    let all = rank(scored_all(time_of_hour(local_hour), recent, pattern_metadata().len()));
    if limit < all.len() {
        all.take(limit as int)
    } else {
        all
    }
}

impl View for PatternRecommender {
    type V = Seq<Seq<char>>;

    closed spec fn view(&self) -> Seq<Seq<char>> {
        texts(self.recent_patterns@)
    }
}

impl PatternRecommender {
    /// A recommender without history.
    pub fn new() -> (r: Self)
        ensures
            r@ == Seq::<Seq<char>>::empty(),
    {
        let r = PatternRecommender { recent_patterns: Vec::new() };
        assert(r@ =~= Seq::<Seq<char>>::empty());
        r
    }

    /// Puts `pattern_id` in front of the history and forgets what is older
    /// than the five newest.
    pub fn record_pattern(&mut self, pattern_id: String)
        ensures
            final(self)@ == if old(self)@.len() >= HISTORY_LIMIT {
                (seq![pattern_id@] + old(self)@).take(HISTORY_LIMIT as int)
            } else {
                seq![pattern_id@] + old(self)@
            },
    {
        self.recent_patterns.insert(0, pattern_id);
        assert(texts(self.recent_patterns@) =~= seq![pattern_id@] + old(self)@);
        if self.recent_patterns.len() > HISTORY_LIMIT {
            self.recent_patterns.truncate(HISTORY_LIMIT);
            assert(texts(self.recent_patterns@) =~= (seq![pattern_id@] + old(self)@).take(
                HISTORY_LIMIT as int,
            ));
        }
    }

    /// Forgets the history.
    pub fn clear_history(&mut self)
        ensures
            final(self)@ == Seq::<Seq<char>>::empty(),
    {
        self.recent_patterns.clear();
        assert(texts(self.recent_patterns@) =~= Seq::<Seq<char>>::empty());
    }

    fn times_recent(&self, id: &String) -> (n: usize)
        ensures
            n == occurrences(self@, id@),
    {
        let len = self.recent_patterns.len();
        let mut n: usize = 0;
        let mut i: usize = 0;
        while i < len
            invariant
                i <= len,
                len == self.recent_patterns@.len(),
                n <= i,
                n == occurrences(self@.subrange(0, i as int), id@),
            decreases len - i,
        {
            proof {
                let next = self@.subrange(0, i + 1);
                assert(next.drop_last() =~= self@.subrange(0, i as int));
                assert(next.last() == self.recent_patterns@[i as int]@);
            }
            if self.recent_patterns[i] == *id {
                n += 1;
            }
            i += 1;
        }
        assert(self@.subrange(0, len as int) =~= self@);
        n
    }

    /// The best `limit` recommendations for the hour `local_hour`: every
    /// known pattern is scored, the scores are ranked highest first (equal
    /// scores in table order), and the first `limit` are returned.
    pub fn recommend(&self, local_hour: u8, limit: u32) -> (r: Vec<FfiPatternRecommendation>)
        ensures
            recommendation_views(r@) == recommendations(self@, local_hour, limit as nat),
            descending(recommendation_views(r@)),
            r@.len() <= pattern_metadata().len(),
    {
        let t = FfiTimeOfDay::from_hour(local_hour);
        let table = metadata();
        let n = table.len();
        let mut ranked: Vec<FfiPatternRecommendation> = Vec::new();
        let mut i: usize = 0;
        assert(recommendation_views(ranked@) =~= rank(scored_all(t, self@, 0)));
        while i < n
            invariant
                i <= n,
                n == table@.len(),
                table@ == pattern_metadata(),
                t == time_of_hour(local_hour),
                ranked@.len() == i,
                recommendation_views(ranked@) == rank(scored_all(t, self@, i as nat)),
            decreases n - i,
        {
            let m = table[i];
            let id = known_id_string(m.pattern);
            let times = self.times_recent(&id);
            let x = FfiPatternRecommendation {
                pattern_id: id,
                score: score(&m, t, times),
                reason: reason(&m, t, times),
            };
            let ghost before = recommendation_views(ranked@);
            let ghost all = scored_all(t, self@, (i + 1) as nat);
            proof {
                assert(x@ == scored(m, t, self@));
                assert(all.drop_last() =~= scored_all(t, self@, i as nat));
                assert(all.last() == x@);
            }
            let mut p: usize = ranked.len();
            while p > 0 && ranked[p - 1].score < x.score
                invariant
                    p <= ranked@.len(),
                    forall|j: int|
                        p <= j < ranked@.len() ==> (#[trigger] recommendation_views(
                            ranked@,
                        )[j]).score < x.score,
                decreases p,
            {
                p -= 1;
            }
            proof {
                if p > 0 {
                    assert(recommendation_views(ranked@)[p - 1].score >= x@.score);
                }
                lemma_rank_position_unique(before, x@, p as int);
                lemma_insert_ranked(before, x@);
            }
            ranked.insert(p, x);
            i += 1;
            assert(recommendation_views(ranked@) =~= before.insert(p as int, x@));
        }
        proof {
            lemma_rank(scored_all(t, self@, n as nat));
        }
        let ghost all = recommendation_views(ranked@);
        if (limit as usize) < ranked.len() {
            ranked.truncate(limit as usize);
            assert(recommendation_views(ranked@) =~= all.take(limit as int));
        }
        ranked
    }

    /// The best recommendation for the hour `local_hour`.
    pub fn top_recommendation(&self, local_hour: u8) -> (r: Option<FfiPatternRecommendation>)
        ensures
            r matches Some(top) && top@ == recommendations(self@, local_hour, 1)[0],
    {
        let mut best = self.recommend(local_hour, 1);
        proof {
            let n = pattern_metadata().len();
            assert(n == 11);
            lemma_scored_all_len(time_of_hour(local_hour), self@, n);
            lemma_rank(scored_all(time_of_hour(local_hour), self@, n));
            let all = rank(scored_all(time_of_hour(local_hour), self@, n));
            assert(all.len() == 11);
            assert(recommendations(self@, local_hour, 1) == all.take(1));
            assert(all.take(1).len() == 1);
            assert(recommendation_views(best@).len() == best@.len());
        }
        let ghost found = recommendation_views(best@);
        if best.len() > 0 {
            let top = best.remove(0);
            assert(top@ == found[0]);
            Some(top)
        } else {
            None
        }
    }
}

} // verus!
