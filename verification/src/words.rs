//! The built-in word data: the corpus of common five-letter words and the
//! grading answer key, each pinned to a specification-level name so that
//! the getters in `crate::corpus` can promise exactly what they hand out.

use vstd::prelude::*;

verus! {

proof fn lemma_concat_from_subranges(
    pre: Seq<Seq<char>>,
    post: Seq<Seq<char>>,
    tail: Seq<Seq<char>>,
)
    requires
        post.len() == pre.len() + tail.len(),
        post.subrange(0, pre.len() as int) == pre,
        post.subrange(pre.len() as int, post.len() as int) == tail,
    ensures
        post == pre + tail,
{
    assert(post =~= pre + tail);
}

spec fn words_view_00() -> Seq<Seq<char>> {
    seq!["abide"@, "about"@, "above"@, "abuse"@, "actor"@, "acute"@, "adapt"@, "admit"@, "adobe"@, "adopt"@, "adult"@, "after"@, "again"@, "agent"@, "agile"@, "aging"@, "agree"@, "ahead"@, "aisle"@, "alarm"@, "album"@, "alert"@, "alike"@, "alive"@, "allow"@, "alone"@, "along"@, "aloud"@, "alpha"@, "altar"@, "alter"@, "amber"@, "amend"@, "ample"@, "angel"@, "anger"@, "angle"@, "angry"@, "ankle"@, "annex"@, "annoy"@, "apart"@, "apple"@, "apply"@, "apron"@, "arbor"@, "arena"@, "argue"@, "arise"@, "armor"@]
}

#[verifier::rlimit(100)]
fn push_words_00(words: &mut Vec<&'static str>)
    ensures
        final(words).deep_view().len() == old(words).deep_view().len() + 50,
        final(words).deep_view().subrange(0, old(words).deep_view().len() as int)
            == old(words).deep_view(),
        final(words).deep_view().subrange(
            old(words).deep_view().len() as int,
            final(words).deep_view().len() as int,
        ) == words_view_00(),
        forall|j: int|
            old(words).deep_view().len() <= j < final(words).deep_view().len()
                ==> (#[trigger] final(words).deep_view()[j]).len() == 5,
{
    words.push("abide");
    words.push("about");
    words.push("above");
    words.push("abuse");
    words.push("actor");
    words.push("acute");
    words.push("adapt");
    words.push("admit");
    words.push("adobe");
    words.push("adopt");
    words.push("adult");
    words.push("after");
    words.push("again");
    words.push("agent");
    words.push("agile");
    words.push("aging");
    words.push("agree");
    words.push("ahead");
    words.push("aisle");
    words.push("alarm");
    words.push("album");
    words.push("alert");
    words.push("alike");
    words.push("alive");
    words.push("allow");
    words.push("alone");
    words.push("along");
    words.push("aloud");
    words.push("alpha");
    words.push("altar");
    words.push("alter");
    words.push("amber");
    words.push("amend");
    words.push("ample");
    words.push("angel");
    words.push("anger");
    words.push("angle");
    words.push("angry");
    words.push("ankle");
    words.push("annex");
    words.push("annoy");
    words.push("apart");
    words.push("apple");
    words.push("apply");
    words.push("apron");
    words.push("arbor");
    words.push("arena");
    words.push("argue");
    words.push("arise");
    words.push("armor");
    proof {
        reveal_strlit("abide");
        reveal_strlit("about");
        reveal_strlit("above");
        reveal_strlit("abuse");
        reveal_strlit("actor");
        reveal_strlit("acute");
        reveal_strlit("adapt");
        reveal_strlit("admit");
        reveal_strlit("adobe");
        reveal_strlit("adopt");
        reveal_strlit("adult");
        reveal_strlit("after");
        reveal_strlit("again");
        reveal_strlit("agent");
        reveal_strlit("agile");
        reveal_strlit("aging");
        reveal_strlit("agree");
        reveal_strlit("ahead");
        reveal_strlit("aisle");
        reveal_strlit("alarm");
        reveal_strlit("album");
        reveal_strlit("alert");
        reveal_strlit("alike");
        reveal_strlit("alive");
        reveal_strlit("allow");
        reveal_strlit("alone");
        reveal_strlit("along");
        reveal_strlit("aloud");
        reveal_strlit("alpha");
        reveal_strlit("altar");
        reveal_strlit("alter");
        reveal_strlit("amber");
        reveal_strlit("amend");
        reveal_strlit("ample");
        reveal_strlit("angel");
        reveal_strlit("anger");
        reveal_strlit("angle");
        reveal_strlit("angry");
        reveal_strlit("ankle");
        reveal_strlit("annex");
        reveal_strlit("annoy");
        reveal_strlit("apart");
        reveal_strlit("apple");
        reveal_strlit("apply");
        reveal_strlit("apron");
        reveal_strlit("arbor");
        reveal_strlit("arena");
        reveal_strlit("argue");
        reveal_strlit("arise");
        reveal_strlit("armor");
        assert(words.deep_view().subrange(0, old(words).deep_view().len() as int)
            =~= old(words).deep_view());
        assert(words.deep_view().subrange(
            old(words).deep_view().len() as int,
            words.deep_view().len() as int,
        ) =~= words_view_00());
    }
}

spec fn words_view_01() -> Seq<Seq<char>> {
    seq!["aroma"@, "arose"@, "array"@, "arrow"@, "ashen"@, "aside"@, "asset"@, "atlas"@, "attic"@, "audio"@, "audit"@, "avoid"@, "await"@, "awake"@, "award"@, "aware"@, "awful"@, "bacon"@, "badge"@, "bagel"@, "baker"@, "balmy"@, "banjo"@, "barge"@, "basic"@, "basil"@, "basin"@, "batch"@, "baton"@, "beach"@, "beard"@, "beast"@, "begin"@, "begun"@, "being"@, "belly"@, "below"@, "bench"@, "berry"@, "bible"@, "bikes"@, "birch"@, "birth"@, "black"@, "blade"@, "blame"@, "bland"@, "blank"@, "blast"@, "blaze"@]
}

#[verifier::rlimit(100)]
fn push_words_01(words: &mut Vec<&'static str>)
    ensures
        final(words).deep_view().len() == old(words).deep_view().len() + 50,
        final(words).deep_view().subrange(0, old(words).deep_view().len() as int)
            == old(words).deep_view(),
        final(words).deep_view().subrange(
            old(words).deep_view().len() as int,
            final(words).deep_view().len() as int,
        ) == words_view_01(),
        forall|j: int|
            old(words).deep_view().len() <= j < final(words).deep_view().len()
                ==> (#[trigger] final(words).deep_view()[j]).len() == 5,
{
    words.push("aroma");
    words.push("arose");
    words.push("array");
    words.push("arrow");
    words.push("ashen");
    words.push("aside");
    words.push("asset");
    words.push("atlas");
    words.push("attic");
    words.push("audio");
    words.push("audit");
    words.push("avoid");
    words.push("await");
    words.push("awake");
    words.push("award");
    words.push("aware");
    words.push("awful");
    words.push("bacon");
    words.push("badge");
    words.push("bagel");
    words.push("baker");
    words.push("balmy");
    words.push("banjo");
    words.push("barge");
    words.push("basic");
    words.push("basil");
    words.push("basin");
    words.push("batch");
    words.push("baton");
    words.push("beach");
    words.push("beard");
    words.push("beast");
    words.push("begin");
    words.push("begun");
    words.push("being");
    words.push("belly");
    words.push("below");
    words.push("bench");
    words.push("berry");
    words.push("bible");
    words.push("bikes");
    words.push("birch");
    words.push("birth");
    words.push("black");
    words.push("blade");
    words.push("blame");
    words.push("bland");
    words.push("blank");
    words.push("blast");
    words.push("blaze");
    proof {
        reveal_strlit("aroma");
        reveal_strlit("arose");
        reveal_strlit("array");
        reveal_strlit("arrow");
        reveal_strlit("ashen");
        reveal_strlit("aside");
        reveal_strlit("asset");
        reveal_strlit("atlas");
        reveal_strlit("attic");
        reveal_strlit("audio");
        reveal_strlit("audit");
        reveal_strlit("avoid");
        reveal_strlit("await");
        reveal_strlit("awake");
        reveal_strlit("award");
        reveal_strlit("aware");
        reveal_strlit("awful");
        reveal_strlit("bacon");
        reveal_strlit("badge");
        reveal_strlit("bagel");
        reveal_strlit("baker");
        reveal_strlit("balmy");
        reveal_strlit("banjo");
        reveal_strlit("barge");
        reveal_strlit("basic");
        reveal_strlit("basil");
        reveal_strlit("basin");
        reveal_strlit("batch");
        reveal_strlit("baton");
        reveal_strlit("beach");
        reveal_strlit("beard");
        reveal_strlit("beast");
        reveal_strlit("begin");
        reveal_strlit("begun");
        reveal_strlit("being");
        reveal_strlit("belly");
        reveal_strlit("below");
        reveal_strlit("bench");
        reveal_strlit("berry");
        reveal_strlit("bible");
        reveal_strlit("bikes");
        reveal_strlit("birch");
        reveal_strlit("birth");
        reveal_strlit("black");
        reveal_strlit("blade");
        reveal_strlit("blame");
        reveal_strlit("bland");
        reveal_strlit("blank");
        reveal_strlit("blast");
        reveal_strlit("blaze");
        assert(words.deep_view().subrange(0, old(words).deep_view().len() as int)
            =~= old(words).deep_view());
        assert(words.deep_view().subrange(
            old(words).deep_view().len() as int,
            words.deep_view().len() as int,
        ) =~= words_view_01());
    }
}

spec fn words_view_02() -> Seq<Seq<char>> {
    seq!["bleak"@, "blend"@, "bless"@, "blimp"@, "blind"@, "blink"@, "bliss"@, "block"@, "bloke"@, "blond"@, "blood"@, "bloom"@, "blown"@, "bluff"@, "blunt"@, "blurb"@, "blush"@, "board"@, "boast"@, "bonus"@, "booth"@, "bound"@, "brace"@, "braid"@, "brain"@, "brake"@, "brand"@, "brass"@, "brave"@, "bread"@, "break"@, "breed"@, "brick"@, "bride"@, "brief"@, "brine"@, "bring"@, "brink"@, "brisk"@, "broad"@, "broil"@, "broke"@, "brook"@, "broom"@, "broth"@, "brown"@, "brush"@, "buddy"@, "budge"@, "buggy"@]
}

#[verifier::rlimit(100)]
fn push_words_02(words: &mut Vec<&'static str>)
    ensures
        final(words).deep_view().len() == old(words).deep_view().len() + 50,
        final(words).deep_view().subrange(0, old(words).deep_view().len() as int)
            == old(words).deep_view(),
        final(words).deep_view().subrange(
            old(words).deep_view().len() as int,
            final(words).deep_view().len() as int,
        ) == words_view_02(),
        forall|j: int|
            old(words).deep_view().len() <= j < final(words).deep_view().len()
                ==> (#[trigger] final(words).deep_view()[j]).len() == 5,
{
    words.push("bleak");
    words.push("blend");
    words.push("bless");
    words.push("blimp");
    words.push("blind");
    words.push("blink");
    words.push("bliss");
    words.push("block");
    words.push("bloke");
    words.push("blond");
    words.push("blood");
    words.push("bloom");
    words.push("blown");
    words.push("bluff");
    words.push("blunt");
    words.push("blurb");
    words.push("blush");
    words.push("board");
    words.push("boast");
    words.push("bonus");
    words.push("booth");
    words.push("bound");
    words.push("brace");
    words.push("braid");
    words.push("brain");
    words.push("brake");
    words.push("brand");
    words.push("brass");
    words.push("brave");
    words.push("bread");
    words.push("break");
    words.push("breed");
    words.push("brick");
    words.push("bride");
    words.push("brief");
    words.push("brine");
    words.push("bring");
    words.push("brink");
    words.push("brisk");
    words.push("broad");
    words.push("broil");
    words.push("broke");
    words.push("brook");
    words.push("broom");
    words.push("broth");
    words.push("brown");
    words.push("brush");
    words.push("buddy");
    words.push("budge");
    words.push("buggy");
    proof {
        reveal_strlit("bleak");
        reveal_strlit("blend");
        reveal_strlit("bless");
        reveal_strlit("blimp");
        reveal_strlit("blind");
        reveal_strlit("blink");
        reveal_strlit("bliss");
        reveal_strlit("block");
        reveal_strlit("bloke");
        reveal_strlit("blond");
        reveal_strlit("blood");
        reveal_strlit("bloom");
        reveal_strlit("blown");
        reveal_strlit("bluff");
        reveal_strlit("blunt");
        reveal_strlit("blurb");
        reveal_strlit("blush");
        reveal_strlit("board");
        reveal_strlit("boast");
        reveal_strlit("bonus");
        reveal_strlit("booth");
        reveal_strlit("bound");
        reveal_strlit("brace");
        reveal_strlit("braid");
        reveal_strlit("brain");
        reveal_strlit("brake");
        reveal_strlit("brand");
        reveal_strlit("brass");
        reveal_strlit("brave");
        reveal_strlit("bread");
        reveal_strlit("break");
        reveal_strlit("breed");
        reveal_strlit("brick");
        reveal_strlit("bride");
        reveal_strlit("brief");
        reveal_strlit("brine");
        reveal_strlit("bring");
        reveal_strlit("brink");
        reveal_strlit("brisk");
        reveal_strlit("broad");
        reveal_strlit("broil");
        reveal_strlit("broke");
        reveal_strlit("brook");
        reveal_strlit("broom");
        reveal_strlit("broth");
        reveal_strlit("brown");
        reveal_strlit("brush");
        reveal_strlit("buddy");
        reveal_strlit("budge");
        reveal_strlit("buggy");
        assert(words.deep_view().subrange(0, old(words).deep_view().len() as int)
            =~= old(words).deep_view());
        assert(words.deep_view().subrange(
            old(words).deep_view().len() as int,
            words.deep_view().len() as int,
        ) =~= words_view_02());
    }
}

spec fn words_view_03() -> Seq<Seq<char>> {
    seq!["bugle"@, "build"@, "built"@, "bulge"@, "bulky"@, "bully"@, "bunch"@, "bunny"@, "burly"@, "burnt"@, "burst"@, "bushy"@, "butte"@, "buyer"@, "cabin"@, "cable"@, "cacao"@, "cache"@, "cadet"@, "cagey"@, "camel"@, "cameo"@, "canal"@, "candy"@, "canoe"@, "canon"@, "cargo"@, "carol"@, "carry"@, "carve"@, "catch"@, "cater"@, "cause"@, "cease"@, "cedar"@, "chain"@, "chair"@, "chalk"@, "champ"@, "chant"@, "chaos"@, "charm"@, "chart"@, "chase"@, "cheap"@, "cheat"@, "check"@, "cheek"@, "cheer"@, "chess"@]
}

#[verifier::rlimit(100)]
fn push_words_03(words: &mut Vec<&'static str>)
    ensures
        final(words).deep_view().len() == old(words).deep_view().len() + 50,
        final(words).deep_view().subrange(0, old(words).deep_view().len() as int)
            == old(words).deep_view(),
        final(words).deep_view().subrange(
            old(words).deep_view().len() as int,
            final(words).deep_view().len() as int,
        ) == words_view_03(),
        forall|j: int|
            old(words).deep_view().len() <= j < final(words).deep_view().len()
                ==> (#[trigger] final(words).deep_view()[j]).len() == 5,
{
    words.push("bugle");
    words.push("build");
    words.push("built");
    words.push("bulge");
    words.push("bulky");
    words.push("bully");
    words.push("bunch");
    words.push("bunny");
    words.push("burly");
    words.push("burnt");
    words.push("burst");
    words.push("bushy");
    words.push("butte");
    words.push("buyer");
    words.push("cabin");
    words.push("cable");
    words.push("cacao");
    words.push("cache");
    words.push("cadet");
    words.push("cagey");
    words.push("camel");
    words.push("cameo");
    words.push("canal");
    words.push("candy");
    words.push("canoe");
    words.push("canon");
    words.push("cargo");
    words.push("carol");
    words.push("carry");
    words.push("carve");
    words.push("catch");
    words.push("cater");
    words.push("cause");
    words.push("cease");
    words.push("cedar");
    words.push("chain");
    words.push("chair");
    words.push("chalk");
    words.push("champ");
    words.push("chant");
    words.push("chaos");
    words.push("charm");
    words.push("chart");
    words.push("chase");
    words.push("cheap");
    words.push("cheat");
    words.push("check");
    words.push("cheek");
    words.push("cheer");
    words.push("chess");
    proof {
        reveal_strlit("bugle");
        reveal_strlit("build");
        reveal_strlit("built");
        reveal_strlit("bulge");
        reveal_strlit("bulky");
        reveal_strlit("bully");
        reveal_strlit("bunch");
        reveal_strlit("bunny");
        reveal_strlit("burly");
        reveal_strlit("burnt");
        reveal_strlit("burst");
        reveal_strlit("bushy");
        reveal_strlit("butte");
        reveal_strlit("buyer");
        reveal_strlit("cabin");
        reveal_strlit("cable");
        reveal_strlit("cacao");
        reveal_strlit("cache");
        reveal_strlit("cadet");
        reveal_strlit("cagey");
        reveal_strlit("camel");
        reveal_strlit("cameo");
        reveal_strlit("canal");
        reveal_strlit("candy");
        reveal_strlit("canoe");
        reveal_strlit("canon");
        reveal_strlit("cargo");
        reveal_strlit("carol");
        reveal_strlit("carry");
        reveal_strlit("carve");
        reveal_strlit("catch");
        reveal_strlit("cater");
        reveal_strlit("cause");
        reveal_strlit("cease");
        reveal_strlit("cedar");
        reveal_strlit("chain");
        reveal_strlit("chair");
        reveal_strlit("chalk");
        reveal_strlit("champ");
        reveal_strlit("chant");
        reveal_strlit("chaos");
        reveal_strlit("charm");
        reveal_strlit("chart");
        reveal_strlit("chase");
        reveal_strlit("cheap");
        reveal_strlit("cheat");
        reveal_strlit("check");
        reveal_strlit("cheek");
        reveal_strlit("cheer");
        reveal_strlit("chess");
        assert(words.deep_view().subrange(0, old(words).deep_view().len() as int)
            =~= old(words).deep_view());
        assert(words.deep_view().subrange(
            old(words).deep_view().len() as int,
            words.deep_view().len() as int,
        ) =~= words_view_03());
    }
}

spec fn words_view_04() -> Seq<Seq<char>> {
    seq!["chest"@, "chewy"@, "chick"@, "chief"@, "child"@, "chill"@, "chime"@, "china"@, "chirp"@, "choir"@, "choke"@, "chord"@, "chore"@, "chose"@, "chunk"@, "churn"@, "cider"@, "cigar"@, "cinch"@, "circa"@, "civic"@, "civil"@, "claim"@, "clamp"@, "clash"@, "clasp"@, "class"@, "clean"@, "clear"@, "clerk"@, "click"@, "cliff"@, "climb"@, "cling"@, "cloak"@, "clock"@, "clone"@, "close"@, "cloth"@, "cloud"@, "clout"@, "clove"@, "clown"@, "clump"@, "clung"@, "coach"@, "coast"@, "cobra"@, "cocoa"@, "colon"@]
}

#[verifier::rlimit(100)]
fn push_words_04(words: &mut Vec<&'static str>)
    ensures
        final(words).deep_view().len() == old(words).deep_view().len() + 50,
        final(words).deep_view().subrange(0, old(words).deep_view().len() as int)
            == old(words).deep_view(),
        final(words).deep_view().subrange(
            old(words).deep_view().len() as int,
            final(words).deep_view().len() as int,
        ) == words_view_04(),
        forall|j: int|
            old(words).deep_view().len() <= j < final(words).deep_view().len()
                ==> (#[trigger] final(words).deep_view()[j]).len() == 5,
{
    words.push("chest");
    words.push("chewy");
    words.push("chick");
    words.push("chief");
    words.push("child");
    words.push("chill");
    words.push("chime");
    words.push("china");
    words.push("chirp");
    words.push("choir");
    words.push("choke");
    words.push("chord");
    words.push("chore");
    words.push("chose");
    words.push("chunk");
    words.push("churn");
    words.push("cider");
    words.push("cigar");
    words.push("cinch");
    words.push("circa");
    words.push("civic");
    words.push("civil");
    words.push("claim");
    words.push("clamp");
    words.push("clash");
    words.push("clasp");
    words.push("class");
    words.push("clean");
    words.push("clear");
    words.push("clerk");
    words.push("click");
    words.push("cliff");
    words.push("climb");
    words.push("cling");
    words.push("cloak");
    words.push("clock");
    words.push("clone");
    words.push("close");
    words.push("cloth");
    words.push("cloud");
    words.push("clout");
    words.push("clove");
    words.push("clown");
    words.push("clump");
    words.push("clung");
    words.push("coach");
    words.push("coast");
    words.push("cobra");
    words.push("cocoa");
    words.push("colon");
    proof {
        reveal_strlit("chest");
        reveal_strlit("chewy");
        reveal_strlit("chick");
        reveal_strlit("chief");
        reveal_strlit("child");
        reveal_strlit("chill");
        reveal_strlit("chime");
        reveal_strlit("china");
        reveal_strlit("chirp");
        reveal_strlit("choir");
        reveal_strlit("choke");
        reveal_strlit("chord");
        reveal_strlit("chore");
        reveal_strlit("chose");
        reveal_strlit("chunk");
        reveal_strlit("churn");
        reveal_strlit("cider");
        reveal_strlit("cigar");
        reveal_strlit("cinch");
        reveal_strlit("circa");
        reveal_strlit("civic");
        reveal_strlit("civil");
        reveal_strlit("claim");
        reveal_strlit("clamp");
        reveal_strlit("clash");
        reveal_strlit("clasp");
        reveal_strlit("class");
        reveal_strlit("clean");
        reveal_strlit("clear");
        reveal_strlit("clerk");
        reveal_strlit("click");
        reveal_strlit("cliff");
        reveal_strlit("climb");
        reveal_strlit("cling");
        reveal_strlit("cloak");
        reveal_strlit("clock");
        reveal_strlit("clone");
        reveal_strlit("close");
        reveal_strlit("cloth");
        reveal_strlit("cloud");
        reveal_strlit("clout");
        reveal_strlit("clove");
        reveal_strlit("clown");
        reveal_strlit("clump");
        reveal_strlit("clung");
        reveal_strlit("coach");
        reveal_strlit("coast");
        reveal_strlit("cobra");
        reveal_strlit("cocoa");
        reveal_strlit("colon");
        assert(words.deep_view().subrange(0, old(words).deep_view().len() as int)
            =~= old(words).deep_view());
        assert(words.deep_view().subrange(
            old(words).deep_view().len() as int,
            words.deep_view().len() as int,
        ) =~= words_view_04());
    }
}

spec fn words_view_05() -> Seq<Seq<char>> {
    seq!["color"@, "comet"@, "comfy"@, "comic"@, "comma"@, "coral"@, "corny"@, "couch"@, "cough"@, "could"@, "count"@, "court"@, "cover"@, "covet"@, "crack"@, "craft"@, "cramp"@, "crane"@, "crank"@, "crash"@, "crate"@, "crawl"@, "crazy"@, "creak"@, "cream"@, "credo"@, "creed"@, "creek"@, "creep"@, "crepe"@, "crept"@, "crest"@, "crisp"@, "croak"@, "crook"@, "cross"@, "crowd"@, "crown"@, "crude"@, "cruel"@, "crumb"@, "crush"@, "crust"@, "crypt"@, "cubic"@, "cumin"@, "curly"@, "curry"@, "curse"@, "curve"@]
}

#[verifier::rlimit(100)]
fn push_words_05(words: &mut Vec<&'static str>)
    ensures
        final(words).deep_view().len() == old(words).deep_view().len() + 50,
        final(words).deep_view().subrange(0, old(words).deep_view().len() as int)
            == old(words).deep_view(),
        final(words).deep_view().subrange(
            old(words).deep_view().len() as int,
            final(words).deep_view().len() as int,
        ) == words_view_05(),
        forall|j: int|
            old(words).deep_view().len() <= j < final(words).deep_view().len()
                ==> (#[trigger] final(words).deep_view()[j]).len() == 5,
{
    words.push("color");
    words.push("comet");
    words.push("comfy");
    words.push("comic");
    words.push("comma");
    words.push("coral");
    words.push("corny");
    words.push("couch");
    words.push("cough");
    words.push("could");
    words.push("count");
    words.push("court");
    words.push("cover");
    words.push("covet");
    words.push("crack");
    words.push("craft");
    words.push("cramp");
    words.push("crane");
    words.push("crank");
    words.push("crash");
    words.push("crate");
    words.push("crawl");
    words.push("crazy");
    words.push("creak");
    words.push("cream");
    words.push("credo");
    words.push("creed");
    words.push("creek");
    words.push("creep");
    words.push("crepe");
    words.push("crept");
    words.push("crest");
    words.push("crisp");
    words.push("croak");
    words.push("crook");
    words.push("cross");
    words.push("crowd");
    words.push("crown");
    words.push("crude");
    words.push("cruel");
    words.push("crumb");
    words.push("crush");
    words.push("crust");
    words.push("crypt");
    words.push("cubic");
    words.push("cumin");
    words.push("curly");
    words.push("curry");
    words.push("curse");
    words.push("curve");
    proof {
        reveal_strlit("color");
        reveal_strlit("comet");
        reveal_strlit("comfy");
        reveal_strlit("comic");
        reveal_strlit("comma");
        reveal_strlit("coral");
        reveal_strlit("corny");
        reveal_strlit("couch");
        reveal_strlit("cough");
        reveal_strlit("could");
        reveal_strlit("count");
        reveal_strlit("court");
        reveal_strlit("cover");
        reveal_strlit("covet");
        reveal_strlit("crack");
        reveal_strlit("craft");
        reveal_strlit("cramp");
        reveal_strlit("crane");
        reveal_strlit("crank");
        reveal_strlit("crash");
        reveal_strlit("crate");
        reveal_strlit("crawl");
        reveal_strlit("crazy");
        reveal_strlit("creak");
        reveal_strlit("cream");
        reveal_strlit("credo");
        reveal_strlit("creed");
        reveal_strlit("creek");
        reveal_strlit("creep");
        reveal_strlit("crepe");
        reveal_strlit("crept");
        reveal_strlit("crest");
        reveal_strlit("crisp");
        reveal_strlit("croak");
        reveal_strlit("crook");
        reveal_strlit("cross");
        reveal_strlit("crowd");
        reveal_strlit("crown");
        reveal_strlit("crude");
        reveal_strlit("cruel");
        reveal_strlit("crumb");
        reveal_strlit("crush");
        reveal_strlit("crust");
        reveal_strlit("crypt");
        reveal_strlit("cubic");
        reveal_strlit("cumin");
        reveal_strlit("curly");
        reveal_strlit("curry");
        reveal_strlit("curse");
        reveal_strlit("curve");
        assert(words.deep_view().subrange(0, old(words).deep_view().len() as int)
            =~= old(words).deep_view());
        assert(words.deep_view().subrange(
            old(words).deep_view().len() as int,
            words.deep_view().len() as int,
        ) =~= words_view_05());
    }
}

spec fn words_view_06() -> Seq<Seq<char>> {
    seq!["curvy"@, "cynic"@, "daily"@, "dairy"@, "daisy"@, "dance"@, "dandy"@, "death"@, "debit"@, "debut"@, "decal"@, "decay"@, "decor"@, "decoy"@, "defer"@, "deity"@, "delay"@, "delta"@, "dense"@, "depot"@, "depth"@, "derby"@, "deter"@, "devil"@, "diary"@, "dicey"@, "digit"@, "diner"@, "dingy"@, "dirty"@, "disco"@, "ditch"@, "ditto"@, "dizzy"@, "dodge"@, "dodgy"@, "dogma"@, "doing"@, "dolly"@, "donor"@, "donut"@, "dopey"@, "doubt"@, "dough"@, "dowdy"@, "dowel"@, "downy"@, "dozen"@, "draft"@, "drain"@]
}

#[verifier::rlimit(100)]
fn push_words_06(words: &mut Vec<&'static str>)
    ensures
        final(words).deep_view().len() == old(words).deep_view().len() + 50,
        final(words).deep_view().subrange(0, old(words).deep_view().len() as int)
            == old(words).deep_view(),
        final(words).deep_view().subrange(
            old(words).deep_view().len() as int,
            final(words).deep_view().len() as int,
        ) == words_view_06(),
        forall|j: int|
            old(words).deep_view().len() <= j < final(words).deep_view().len()
                ==> (#[trigger] final(words).deep_view()[j]).len() == 5,
{
    words.push("curvy");
    words.push("cynic");
    words.push("daily");
    words.push("dairy");
    words.push("daisy");
    words.push("dance");
    words.push("dandy");
    words.push("death");
    words.push("debit");
    words.push("debut");
    words.push("decal");
    words.push("decay");
    words.push("decor");
    words.push("decoy");
    words.push("defer");
    words.push("deity");
    words.push("delay");
    words.push("delta");
    words.push("dense");
    words.push("depot");
    words.push("depth");
    words.push("derby");
    words.push("deter");
    words.push("devil");
    words.push("diary");
    words.push("dicey");
    words.push("digit");
    words.push("diner");
    words.push("dingy");
    words.push("dirty");
    words.push("disco");
    words.push("ditch");
    words.push("ditto");
    words.push("dizzy");
    words.push("dodge");
    words.push("dodgy");
    words.push("dogma");
    words.push("doing");
    words.push("dolly");
    words.push("donor");
    words.push("donut");
    words.push("dopey");
    words.push("doubt");
    words.push("dough");
    words.push("dowdy");
    words.push("dowel");
    words.push("downy");
    words.push("dozen");
    words.push("draft");
    words.push("drain");
    proof {
        reveal_strlit("curvy");
        reveal_strlit("cynic");
        reveal_strlit("daily");
        reveal_strlit("dairy");
        reveal_strlit("daisy");
        reveal_strlit("dance");
        reveal_strlit("dandy");
        reveal_strlit("death");
        reveal_strlit("debit");
        reveal_strlit("debut");
        reveal_strlit("decal");
        reveal_strlit("decay");
        reveal_strlit("decor");
        reveal_strlit("decoy");
        reveal_strlit("defer");
        reveal_strlit("deity");
        reveal_strlit("delay");
        reveal_strlit("delta");
        reveal_strlit("dense");
        reveal_strlit("depot");
        reveal_strlit("depth");
        reveal_strlit("derby");
        reveal_strlit("deter");
        reveal_strlit("devil");
        reveal_strlit("diary");
        reveal_strlit("dicey");
        reveal_strlit("digit");
        reveal_strlit("diner");
        reveal_strlit("dingy");
        reveal_strlit("dirty");
        reveal_strlit("disco");
        reveal_strlit("ditch");
        reveal_strlit("ditto");
        reveal_strlit("dizzy");
        reveal_strlit("dodge");
        reveal_strlit("dodgy");
        reveal_strlit("dogma");
        reveal_strlit("doing");
        reveal_strlit("dolly");
        reveal_strlit("donor");
        reveal_strlit("donut");
        reveal_strlit("dopey");
        reveal_strlit("doubt");
        reveal_strlit("dough");
        reveal_strlit("dowdy");
        reveal_strlit("dowel");
        reveal_strlit("downy");
        reveal_strlit("dozen");
        reveal_strlit("draft");
        reveal_strlit("drain");
        assert(words.deep_view().subrange(0, old(words).deep_view().len() as int)
            =~= old(words).deep_view());
        assert(words.deep_view().subrange(
            old(words).deep_view().len() as int,
            words.deep_view().len() as int,
        ) =~= words_view_06());
    }
}

spec fn words_view_07() -> Seq<Seq<char>> {
    seq!["drake"@, "drama"@, "drank"@, "drape"@, "drawl"@, "drawn"@, "dread"@, "dream"@, "dress"@, "dried"@, "drier"@, "drift"@, "drill"@, "drink"@, "drive"@, "droll"@, "drone"@, "drool"@, "droop"@, "dross"@, "drove"@, "drown"@, "druid"@, "drunk"@, "dryer"@, "duchy"@, "dully"@, "dummy"@, "dumpy"@, "dunce"@, "dusky"@, "dusty"@, "dutch"@, "duvet"@, "dwarf"@, "dwell"@, "dwelt"@, "dying"@, "eager"@, "eagle"@, "early"@, "earth"@, "easel"@, "eaten"@, "eater"@, "ebony"@, "edict"@, "edify"@, "eerie"@, "eight"@]
}

#[verifier::rlimit(100)]
fn push_words_07(words: &mut Vec<&'static str>)
    ensures
        final(words).deep_view().len() == old(words).deep_view().len() + 50,
        final(words).deep_view().subrange(0, old(words).deep_view().len() as int)
            == old(words).deep_view(),
        final(words).deep_view().subrange(
            old(words).deep_view().len() as int,
            final(words).deep_view().len() as int,
        ) == words_view_07(),
        forall|j: int|
            old(words).deep_view().len() <= j < final(words).deep_view().len()
                ==> (#[trigger] final(words).deep_view()[j]).len() == 5,
{
    words.push("drake");
    words.push("drama");
    words.push("drank");
    words.push("drape");
    words.push("drawl");
    words.push("drawn");
    words.push("dread");
    words.push("dream");
    words.push("dress");
    words.push("dried");
    words.push("drier");
    words.push("drift");
    words.push("drill");
    words.push("drink");
    words.push("drive");
    words.push("droll");
    words.push("drone");
    words.push("drool");
    words.push("droop");
    words.push("dross");
    words.push("drove");
    words.push("drown");
    words.push("druid");
    words.push("drunk");
    words.push("dryer");
    words.push("duchy");
    words.push("dully");
    words.push("dummy");
    words.push("dumpy");
    words.push("dunce");
    words.push("dusky");
    words.push("dusty");
    words.push("dutch");
    words.push("duvet");
    words.push("dwarf");
    words.push("dwell");
    words.push("dwelt");
    words.push("dying");
    words.push("eager");
    words.push("eagle");
    words.push("early");
    words.push("earth");
    words.push("easel");
    words.push("eaten");
    words.push("eater");
    words.push("ebony");
    words.push("edict");
    words.push("edify");
    words.push("eerie");
    words.push("eight");
    proof {
        reveal_strlit("drake");
        reveal_strlit("drama");
        reveal_strlit("drank");
        reveal_strlit("drape");
        reveal_strlit("drawl");
        reveal_strlit("drawn");
        reveal_strlit("dread");
        reveal_strlit("dream");
        reveal_strlit("dress");
        reveal_strlit("dried");
        reveal_strlit("drier");
        reveal_strlit("drift");
        reveal_strlit("drill");
        reveal_strlit("drink");
        reveal_strlit("drive");
        reveal_strlit("droll");
        reveal_strlit("drone");
        reveal_strlit("drool");
        reveal_strlit("droop");
        reveal_strlit("dross");
        reveal_strlit("drove");
        reveal_strlit("drown");
        reveal_strlit("druid");
        reveal_strlit("drunk");
        reveal_strlit("dryer");
        reveal_strlit("duchy");
        reveal_strlit("dully");
        reveal_strlit("dummy");
        reveal_strlit("dumpy");
        reveal_strlit("dunce");
        reveal_strlit("dusky");
        reveal_strlit("dusty");
        reveal_strlit("dutch");
        reveal_strlit("duvet");
        reveal_strlit("dwarf");
        reveal_strlit("dwell");
        reveal_strlit("dwelt");
        reveal_strlit("dying");
        reveal_strlit("eager");
        reveal_strlit("eagle");
        reveal_strlit("early");
        reveal_strlit("earth");
        reveal_strlit("easel");
        reveal_strlit("eaten");
        reveal_strlit("eater");
        reveal_strlit("ebony");
        reveal_strlit("edict");
        reveal_strlit("edify");
        reveal_strlit("eerie");
        reveal_strlit("eight");
        assert(words.deep_view().subrange(0, old(words).deep_view().len() as int)
            =~= old(words).deep_view());
        assert(words.deep_view().subrange(
            old(words).deep_view().len() as int,
            words.deep_view().len() as int,
        ) =~= words_view_07());
    }
}

spec fn words_view_08() -> Seq<Seq<char>> {
    seq!["eject"@, "eking"@, "elate"@, "elbow"@, "elder"@, "elect"@, "elegy"@, "elfin"@, "elide"@, "elite"@, "elope"@, "elude"@, "email"@, "embed"@, "ember"@, "emcee"@, "empty"@, "enact"@, "endow"@, "enema"@, "enemy"@, "enjoy"@, "ennui"@, "ensue"@, "enter"@, "entry"@, "envoy"@, "epoch"@, "epoxy"@, "equal"@, "equip"@, "erase"@, "erect"@, "erode"@, "error"@, "erupt"@, "essay"@, "ester"@, "ether"@, "ethic"@, "ethos"@, "etude"@, "evade"@, "event"@, "every"@, "evict"@, "evoke"@, "exact"@, "exalt"@, "excel"@]
}

#[verifier::rlimit(100)]
fn push_words_08(words: &mut Vec<&'static str>)
    ensures
        final(words).deep_view().len() == old(words).deep_view().len() + 50,
        final(words).deep_view().subrange(0, old(words).deep_view().len() as int)
            == old(words).deep_view(),
        final(words).deep_view().subrange(
            old(words).deep_view().len() as int,
            final(words).deep_view().len() as int,
        ) == words_view_08(),
        forall|j: int|
            old(words).deep_view().len() <= j < final(words).deep_view().len()
                ==> (#[trigger] final(words).deep_view()[j]).len() == 5,
{
    words.push("eject");
    words.push("eking");
    words.push("elate");
    words.push("elbow");
    words.push("elder");
    words.push("elect");
    words.push("elegy");
    words.push("elfin");
    words.push("elide");
    words.push("elite");
    words.push("elope");
    words.push("elude");
    words.push("email");
    words.push("embed");
    words.push("ember");
    words.push("emcee");
    words.push("empty");
    words.push("enact");
    words.push("endow");
    words.push("enema");
    words.push("enemy");
    words.push("enjoy");
    words.push("ennui");
    words.push("ensue");
    words.push("enter");
    words.push("entry");
    words.push("envoy");
    words.push("epoch");
    words.push("epoxy");
    words.push("equal");
    words.push("equip");
    words.push("erase");
    words.push("erect");
    words.push("erode");
    words.push("error");
    words.push("erupt");
    words.push("essay");
    words.push("ester");
    words.push("ether");
    words.push("ethic");
    words.push("ethos");
    words.push("etude");
    words.push("evade");
    words.push("event");
    words.push("every");
    words.push("evict");
    words.push("evoke");
    words.push("exact");
    words.push("exalt");
    words.push("excel");
    proof {
        reveal_strlit("eject");
        reveal_strlit("eking");
        reveal_strlit("elate");
        reveal_strlit("elbow");
        reveal_strlit("elder");
        reveal_strlit("elect");
        reveal_strlit("elegy");
        reveal_strlit("elfin");
        reveal_strlit("elide");
        reveal_strlit("elite");
        reveal_strlit("elope");
        reveal_strlit("elude");
        reveal_strlit("email");
        reveal_strlit("embed");
        reveal_strlit("ember");
        reveal_strlit("emcee");
        reveal_strlit("empty");
        reveal_strlit("enact");
        reveal_strlit("endow");
        reveal_strlit("enema");
        reveal_strlit("enemy");
        reveal_strlit("enjoy");
        reveal_strlit("ennui");
        reveal_strlit("ensue");
        reveal_strlit("enter");
        reveal_strlit("entry");
        reveal_strlit("envoy");
        reveal_strlit("epoch");
        reveal_strlit("epoxy");
        reveal_strlit("equal");
        reveal_strlit("equip");
        reveal_strlit("erase");
        reveal_strlit("erect");
        reveal_strlit("erode");
        reveal_strlit("error");
        reveal_strlit("erupt");
        reveal_strlit("essay");
        reveal_strlit("ester");
        reveal_strlit("ether");
        reveal_strlit("ethic");
        reveal_strlit("ethos");
        reveal_strlit("etude");
        reveal_strlit("evade");
        reveal_strlit("event");
        reveal_strlit("every");
        reveal_strlit("evict");
        reveal_strlit("evoke");
        reveal_strlit("exact");
        reveal_strlit("exalt");
        reveal_strlit("excel");
        assert(words.deep_view().subrange(0, old(words).deep_view().len() as int)
            =~= old(words).deep_view());
        assert(words.deep_view().subrange(
            old(words).deep_view().len() as int,
            words.deep_view().len() as int,
        ) =~= words_view_08());
    }
}

spec fn words_view_09() -> Seq<Seq<char>> {
    seq!["exert"@, "exile"@, "exist"@, "expel"@, "extol"@, "extra"@, "exult"@, "eying"@, "fable"@, "facet"@, "faint"@, "fairy"@, "faith"@, "false"@, "fancy"@, "fanny"@, "farce"@, "fatal"@, "fatty"@, "fault"@, "fauna"@, "favor"@, "feast"@, "fecal"@, "feign"@, "fella"@, "felon"@, "femme"@, "femur"@, "fence"@, "feral"@, "ferry"@, "fetal"@, "fetch"@, "fetid"@, "fetus"@, "fever"@, "fewer"@, "fiber"@, "ficus"@, "field"@, "fiend"@, "fiery"@, "fifth"@, "fifty"@, "fight"@, "filet"@, "filly"@, "filmy"@, "filth"@]
}

#[verifier::rlimit(100)]
fn push_words_09(words: &mut Vec<&'static str>)
    ensures
        final(words).deep_view().len() == old(words).deep_view().len() + 50,
        final(words).deep_view().subrange(0, old(words).deep_view().len() as int)
            == old(words).deep_view(),
        final(words).deep_view().subrange(
            old(words).deep_view().len() as int,
            final(words).deep_view().len() as int,
        ) == words_view_09(),
        forall|j: int|
            old(words).deep_view().len() <= j < final(words).deep_view().len()
                ==> (#[trigger] final(words).deep_view()[j]).len() == 5,
{
    words.push("exert");
    words.push("exile");
    words.push("exist");
    words.push("expel");
    words.push("extol");
    words.push("extra");
    words.push("exult");
    words.push("eying");
    words.push("fable");
    words.push("facet");
    words.push("faint");
    words.push("fairy");
    words.push("faith");
    words.push("false");
    words.push("fancy");
    words.push("fanny");
    words.push("farce");
    words.push("fatal");
    words.push("fatty");
    words.push("fault");
    words.push("fauna");
    words.push("favor");
    words.push("feast");
    words.push("fecal");
    words.push("feign");
    words.push("fella");
    words.push("felon");
    words.push("femme");
    words.push("femur");
    words.push("fence");
    words.push("feral");
    words.push("ferry");
    words.push("fetal");
    words.push("fetch");
    words.push("fetid");
    words.push("fetus");
    words.push("fever");
    words.push("fewer");
    words.push("fiber");
    words.push("ficus");
    words.push("field");
    words.push("fiend");
    words.push("fiery");
    words.push("fifth");
    words.push("fifty");
    words.push("fight");
    words.push("filet");
    words.push("filly");
    words.push("filmy");
    words.push("filth");
    proof {
        reveal_strlit("exert");
        reveal_strlit("exile");
        reveal_strlit("exist");
        reveal_strlit("expel");
        reveal_strlit("extol");
        reveal_strlit("extra");
        reveal_strlit("exult");
        reveal_strlit("eying");
        reveal_strlit("fable");
        reveal_strlit("facet");
        reveal_strlit("faint");
        reveal_strlit("fairy");
        reveal_strlit("faith");
        reveal_strlit("false");
        reveal_strlit("fancy");
        reveal_strlit("fanny");
        reveal_strlit("farce");
        reveal_strlit("fatal");
        reveal_strlit("fatty");
        reveal_strlit("fault");
        reveal_strlit("fauna");
        reveal_strlit("favor");
        reveal_strlit("feast");
        reveal_strlit("fecal");
        reveal_strlit("feign");
        reveal_strlit("fella");
        reveal_strlit("felon");
        reveal_strlit("femme");
        reveal_strlit("femur");
        reveal_strlit("fence");
        reveal_strlit("feral");
        reveal_strlit("ferry");
        reveal_strlit("fetal");
        reveal_strlit("fetch");
        reveal_strlit("fetid");
        reveal_strlit("fetus");
        reveal_strlit("fever");
        reveal_strlit("fewer");
        reveal_strlit("fiber");
        reveal_strlit("ficus");
        reveal_strlit("field");
        reveal_strlit("fiend");
        reveal_strlit("fiery");
        reveal_strlit("fifth");
        reveal_strlit("fifty");
        reveal_strlit("fight");
        reveal_strlit("filet");
        reveal_strlit("filly");
        reveal_strlit("filmy");
        reveal_strlit("filth");
        assert(words.deep_view().subrange(0, old(words).deep_view().len() as int)
            =~= old(words).deep_view());
        assert(words.deep_view().subrange(
            old(words).deep_view().len() as int,
            words.deep_view().len() as int,
        ) =~= words_view_09());
    }
}

spec fn words_view_10() -> Seq<Seq<char>> {
    seq!["final"@, "finch"@, "finer"@, "first"@, "fishy"@, "fixer"@, "fizzy"@, "fjord"@, "flack"@, "flail"@, "flair"@, "flake"@, "flaky"@, "flame"@, "flank"@, "flare"@, "flash"@, "flask"@, "fleck"@, "fleet"@, "flesh"@, "flick"@, "flier"@, "fling"@, "flint"@, "flirt"@, "float"@, "flock"@, "flood"@, "floor"@, "flora"@, "floss"@, "flour"@, "flout"@, "flown"@, "fluff"@, "fluid"@, "fluke"@, "flume"@, "flung"@, "flunk"@, "flush"@, "flute"@, "flyer"@, "foamy"@, "focal"@, "focus"@, "foggy"@, "foist"@, "folio"@]
}

#[verifier::rlimit(100)]
fn push_words_10(words: &mut Vec<&'static str>)
    ensures
        final(words).deep_view().len() == old(words).deep_view().len() + 50,
        final(words).deep_view().subrange(0, old(words).deep_view().len() as int)
            == old(words).deep_view(),
        final(words).deep_view().subrange(
            old(words).deep_view().len() as int,
            final(words).deep_view().len() as int,
        ) == words_view_10(),
        forall|j: int|
            old(words).deep_view().len() <= j < final(words).deep_view().len()
                ==> (#[trigger] final(words).deep_view()[j]).len() == 5,
{
    words.push("final");
    words.push("finch");
    words.push("finer");
    words.push("first");
    words.push("fishy");
    words.push("fixer");
    words.push("fizzy");
    words.push("fjord");
    words.push("flack");
    words.push("flail");
    words.push("flair");
    words.push("flake");
    words.push("flaky");
    words.push("flame");
    words.push("flank");
    words.push("flare");
    words.push("flash");
    words.push("flask");
    words.push("fleck");
    words.push("fleet");
    words.push("flesh");
    words.push("flick");
    words.push("flier");
    words.push("fling");
    words.push("flint");
    words.push("flirt");
    words.push("float");
    words.push("flock");
    words.push("flood");
    words.push("floor");
    words.push("flora");
    words.push("floss");
    words.push("flour");
    words.push("flout");
    words.push("flown");
    words.push("fluff");
    words.push("fluid");
    words.push("fluke");
    words.push("flume");
    words.push("flung");
    words.push("flunk");
    words.push("flush");
    words.push("flute");
    words.push("flyer");
    words.push("foamy");
    words.push("focal");
    words.push("focus");
    words.push("foggy");
    words.push("foist");
    words.push("folio");
    proof {
        reveal_strlit("final");
        reveal_strlit("finch");
        reveal_strlit("finer");
        reveal_strlit("first");
        reveal_strlit("fishy");
        reveal_strlit("fixer");
        reveal_strlit("fizzy");
        reveal_strlit("fjord");
        reveal_strlit("flack");
        reveal_strlit("flail");
        reveal_strlit("flair");
        reveal_strlit("flake");
        reveal_strlit("flaky");
        reveal_strlit("flame");
        reveal_strlit("flank");
        reveal_strlit("flare");
        reveal_strlit("flash");
        reveal_strlit("flask");
        reveal_strlit("fleck");
        reveal_strlit("fleet");
        reveal_strlit("flesh");
        reveal_strlit("flick");
        reveal_strlit("flier");
        reveal_strlit("fling");
        reveal_strlit("flint");
        reveal_strlit("flirt");
        reveal_strlit("float");
        reveal_strlit("flock");
        reveal_strlit("flood");
        reveal_strlit("floor");
        reveal_strlit("flora");
        reveal_strlit("floss");
        reveal_strlit("flour");
        reveal_strlit("flout");
        reveal_strlit("flown");
        reveal_strlit("fluff");
        reveal_strlit("fluid");
        reveal_strlit("fluke");
        reveal_strlit("flume");
        reveal_strlit("flung");
        reveal_strlit("flunk");
        reveal_strlit("flush");
        reveal_strlit("flute");
        reveal_strlit("flyer");
        reveal_strlit("foamy");
        reveal_strlit("focal");
        reveal_strlit("focus");
        reveal_strlit("foggy");
        reveal_strlit("foist");
        reveal_strlit("folio");
        assert(words.deep_view().subrange(0, old(words).deep_view().len() as int)
            =~= old(words).deep_view());
        assert(words.deep_view().subrange(
            old(words).deep_view().len() as int,
            words.deep_view().len() as int,
        ) =~= words_view_10());
    }
}

spec fn words_view_11() -> Seq<Seq<char>> {
    seq!["folly"@, "foray"@, "force"@, "forge"@, "forgo"@, "forte"@, "forth"@, "forty"@, "forum"@, "found"@, "foyer"@, "frail"@, "frame"@, "frank"@, "fraud"@, "freak"@, "freed"@, "freer"@, "fresh"@, "friar"@, "fried"@, "frill"@, "frisk"@, "fritz"@, "frock"@, "frond"@, "front"@, "frost"@, "froth"@, "frown"@, "froze"@, "fruit"@, "fudge"@, "fugue"@, "fully"@, "fungi"@, "funky"@, "funny"@, "furor"@, "furry"@, "fussy"@, "fuzzy"@, "gaffe"@, "gaily"@, "gamer"@, "gamma"@, "gamut"@, "gassy"@, "gaudy"@, "gauge"@]
}

#[verifier::rlimit(100)]
fn push_words_11(words: &mut Vec<&'static str>)
    ensures
        final(words).deep_view().len() == old(words).deep_view().len() + 50,
        final(words).deep_view().subrange(0, old(words).deep_view().len() as int)
            == old(words).deep_view(),
        final(words).deep_view().subrange(
            old(words).deep_view().len() as int,
            final(words).deep_view().len() as int,
        ) == words_view_11(),
        forall|j: int|
            old(words).deep_view().len() <= j < final(words).deep_view().len()
                ==> (#[trigger] final(words).deep_view()[j]).len() == 5,
{
    words.push("folly");
    words.push("foray");
    words.push("force");
    words.push("forge");
    words.push("forgo");
    words.push("forte");
    words.push("forth");
    words.push("forty");
    words.push("forum");
    words.push("found");
    words.push("foyer");
    words.push("frail");
    words.push("frame");
    words.push("frank");
    words.push("fraud");
    words.push("freak");
    words.push("freed");
    words.push("freer");
    words.push("fresh");
    words.push("friar");
    words.push("fried");
    words.push("frill");
    words.push("frisk");
    words.push("fritz");
    words.push("frock");
    words.push("frond");
    words.push("front");
    words.push("frost");
    words.push("froth");
    words.push("frown");
    words.push("froze");
    words.push("fruit");
    words.push("fudge");
    words.push("fugue");
    words.push("fully");
    words.push("fungi");
    words.push("funky");
    words.push("funny");
    words.push("furor");
    words.push("furry");
    words.push("fussy");
    words.push("fuzzy");
    words.push("gaffe");
    words.push("gaily");
    words.push("gamer");
    words.push("gamma");
    words.push("gamut");
    words.push("gassy");
    words.push("gaudy");
    words.push("gauge");
    proof {
        reveal_strlit("folly");
        reveal_strlit("foray");
        reveal_strlit("force");
        reveal_strlit("forge");
        reveal_strlit("forgo");
        reveal_strlit("forte");
        reveal_strlit("forth");
        reveal_strlit("forty");
        reveal_strlit("forum");
        reveal_strlit("found");
        reveal_strlit("foyer");
        reveal_strlit("frail");
        reveal_strlit("frame");
        reveal_strlit("frank");
        reveal_strlit("fraud");
        reveal_strlit("freak");
        reveal_strlit("freed");
        reveal_strlit("freer");
        reveal_strlit("fresh");
        reveal_strlit("friar");
        reveal_strlit("fried");
        reveal_strlit("frill");
        reveal_strlit("frisk");
        reveal_strlit("fritz");
        reveal_strlit("frock");
        reveal_strlit("frond");
        reveal_strlit("front");
        reveal_strlit("frost");
        reveal_strlit("froth");
        reveal_strlit("frown");
        reveal_strlit("froze");
        reveal_strlit("fruit");
        reveal_strlit("fudge");
        reveal_strlit("fugue");
        reveal_strlit("fully");
        reveal_strlit("fungi");
        reveal_strlit("funky");
        reveal_strlit("funny");
        reveal_strlit("furor");
        reveal_strlit("furry");
        reveal_strlit("fussy");
        reveal_strlit("fuzzy");
        reveal_strlit("gaffe");
        reveal_strlit("gaily");
        reveal_strlit("gamer");
        reveal_strlit("gamma");
        reveal_strlit("gamut");
        reveal_strlit("gassy");
        reveal_strlit("gaudy");
        reveal_strlit("gauge");
        assert(words.deep_view().subrange(0, old(words).deep_view().len() as int)
            =~= old(words).deep_view());
        assert(words.deep_view().subrange(
            old(words).deep_view().len() as int,
            words.deep_view().len() as int,
        ) =~= words_view_11());
    }
}

spec fn words_view_12() -> Seq<Seq<char>> {
    seq!["gaunt"@, "gauze"@, "gavel"@, "gawky"@, "gayer"@, "gayly"@, "gazer"@, "gecko"@, "geeky"@, "geese"@, "genie"@, "genre"@, "ghost"@, "ghoul"@, "giant"@, "giddy"@, "gipsy"@, "girly"@, "girth"@, "given"@, "giver"@, "glade"@, "gland"@, "glare"@, "glass"@, "glaze"@, "gleam"@, "glean"@, "glide"@, "glint"@, "gloat"@, "globe"@, "gloom"@, "glory"@, "gloss"@, "glove"@, "glyph"@, "gnash"@, "gnome"@, "godly"@, "going"@, "golem"@, "golly"@, "gonad"@, "goner"@, "goody"@, "gooey"@, "goofy"@, "goose"@, "gorge"@]
}

#[verifier::rlimit(100)]
fn push_words_12(words: &mut Vec<&'static str>)
    ensures
        final(words).deep_view().len() == old(words).deep_view().len() + 50,
        final(words).deep_view().subrange(0, old(words).deep_view().len() as int)
            == old(words).deep_view(),
        final(words).deep_view().subrange(
            old(words).deep_view().len() as int,
            final(words).deep_view().len() as int,
        ) == words_view_12(),
        forall|j: int|
            old(words).deep_view().len() <= j < final(words).deep_view().len()
                ==> (#[trigger] final(words).deep_view()[j]).len() == 5,
{
    words.push("gaunt");
    words.push("gauze");
    words.push("gavel");
    words.push("gawky");
    words.push("gayer");
    words.push("gayly");
    words.push("gazer");
    words.push("gecko");
    words.push("geeky");
    words.push("geese");
    words.push("genie");
    words.push("genre");
    words.push("ghost");
    words.push("ghoul");
    words.push("giant");
    words.push("giddy");
    words.push("gipsy");
    words.push("girly");
    words.push("girth");
    words.push("given");
    words.push("giver");
    words.push("glade");
    words.push("gland");
    words.push("glare");
    words.push("glass");
    words.push("glaze");
    words.push("gleam");
    words.push("glean");
    words.push("glide");
    words.push("glint");
    words.push("gloat");
    words.push("globe");
    words.push("gloom");
    words.push("glory");
    words.push("gloss");
    words.push("glove");
    words.push("glyph");
    words.push("gnash");
    words.push("gnome");
    words.push("godly");
    words.push("going");
    words.push("golem");
    words.push("golly");
    words.push("gonad");
    words.push("goner");
    words.push("goody");
    words.push("gooey");
    words.push("goofy");
    words.push("goose");
    words.push("gorge");
    proof {
        reveal_strlit("gaunt");
        reveal_strlit("gauze");
        reveal_strlit("gavel");
        reveal_strlit("gawky");
        reveal_strlit("gayer");
        reveal_strlit("gayly");
        reveal_strlit("gazer");
        reveal_strlit("gecko");
        reveal_strlit("geeky");
        reveal_strlit("geese");
        reveal_strlit("genie");
        reveal_strlit("genre");
        reveal_strlit("ghost");
        reveal_strlit("ghoul");
        reveal_strlit("giant");
        reveal_strlit("giddy");
        reveal_strlit("gipsy");
        reveal_strlit("girly");
        reveal_strlit("girth");
        reveal_strlit("given");
        reveal_strlit("giver");
        reveal_strlit("glade");
        reveal_strlit("gland");
        reveal_strlit("glare");
        reveal_strlit("glass");
        reveal_strlit("glaze");
        reveal_strlit("gleam");
        reveal_strlit("glean");
        reveal_strlit("glide");
        reveal_strlit("glint");
        reveal_strlit("gloat");
        reveal_strlit("globe");
        reveal_strlit("gloom");
        reveal_strlit("glory");
        reveal_strlit("gloss");
        reveal_strlit("glove");
        reveal_strlit("glyph");
        reveal_strlit("gnash");
        reveal_strlit("gnome");
        reveal_strlit("godly");
        reveal_strlit("going");
        reveal_strlit("golem");
        reveal_strlit("golly");
        reveal_strlit("gonad");
        reveal_strlit("goner");
        reveal_strlit("goody");
        reveal_strlit("gooey");
        reveal_strlit("goofy");
        reveal_strlit("goose");
        reveal_strlit("gorge");
        assert(words.deep_view().subrange(0, old(words).deep_view().len() as int)
            =~= old(words).deep_view());
        assert(words.deep_view().subrange(
            old(words).deep_view().len() as int,
            words.deep_view().len() as int,
        ) =~= words_view_12());
    }
}

spec fn words_view_13() -> Seq<Seq<char>> {
    seq!["gouge"@, "gourd"@, "grace"@, "grade"@, "graft"@, "grail"@, "grain"@, "grand"@, "grant"@, "grape"@, "graph"@, "grasp"@, "grass"@, "grate"@, "grave"@, "gravy"@, "graze"@, "great"@, "greed"@, "green"@, "greet"@, "grief"@, "grill"@, "grime"@, "grimy"@, "grind"@, "gripe"@, "groan"@, "groin"@, "groom"@, "grope"@, "gross"@, "group"@, "grout"@, "grove"@, "growl"@, "grown"@, "gruel"@, "gruff"@, "grunt"@, "guard"@, "guava"@, "guess"@, "guest"@, "guide"@, "guild"@, "guile"@, "guilt"@, "guise"@, "gulch"@]
}

#[verifier::rlimit(100)]
fn push_words_13(words: &mut Vec<&'static str>)
    ensures
        final(words).deep_view().len() == old(words).deep_view().len() + 50,
        final(words).deep_view().subrange(0, old(words).deep_view().len() as int)
            == old(words).deep_view(),
        final(words).deep_view().subrange(
            old(words).deep_view().len() as int,
            final(words).deep_view().len() as int,
        ) == words_view_13(),
        forall|j: int|
            old(words).deep_view().len() <= j < final(words).deep_view().len()
                ==> (#[trigger] final(words).deep_view()[j]).len() == 5,
{
    words.push("gouge");
    words.push("gourd");
    words.push("grace");
    words.push("grade");
    words.push("graft");
    words.push("grail");
    words.push("grain");
    words.push("grand");
    words.push("grant");
    words.push("grape");
    words.push("graph");
    words.push("grasp");
    words.push("grass");
    words.push("grate");
    words.push("grave");
    words.push("gravy");
    words.push("graze");
    words.push("great");
    words.push("greed");
    words.push("green");
    words.push("greet");
    words.push("grief");
    words.push("grill");
    words.push("grime");
    words.push("grimy");
    words.push("grind");
    words.push("gripe");
    words.push("groan");
    words.push("groin");
    words.push("groom");
    words.push("grope");
    words.push("gross");
    words.push("group");
    words.push("grout");
    words.push("grove");
    words.push("growl");
    words.push("grown");
    words.push("gruel");
    words.push("gruff");
    words.push("grunt");
    words.push("guard");
    words.push("guava");
    words.push("guess");
    words.push("guest");
    words.push("guide");
    words.push("guild");
    words.push("guile");
    words.push("guilt");
    words.push("guise");
    words.push("gulch");
    proof {
        reveal_strlit("gouge");
        reveal_strlit("gourd");
        reveal_strlit("grace");
        reveal_strlit("grade");
        reveal_strlit("graft");
        reveal_strlit("grail");
        reveal_strlit("grain");
        reveal_strlit("grand");
        reveal_strlit("grant");
        reveal_strlit("grape");
        reveal_strlit("graph");
        reveal_strlit("grasp");
        reveal_strlit("grass");
        reveal_strlit("grate");
        reveal_strlit("grave");
        reveal_strlit("gravy");
        reveal_strlit("graze");
        reveal_strlit("great");
        reveal_strlit("greed");
        reveal_strlit("green");
        reveal_strlit("greet");
        reveal_strlit("grief");
        reveal_strlit("grill");
        reveal_strlit("grime");
        reveal_strlit("grimy");
        reveal_strlit("grind");
        reveal_strlit("gripe");
        reveal_strlit("groan");
        reveal_strlit("groin");
        reveal_strlit("groom");
        reveal_strlit("grope");
        reveal_strlit("gross");
        reveal_strlit("group");
        reveal_strlit("grout");
        reveal_strlit("grove");
        reveal_strlit("growl");
        reveal_strlit("grown");
        reveal_strlit("gruel");
        reveal_strlit("gruff");
        reveal_strlit("grunt");
        reveal_strlit("guard");
        reveal_strlit("guava");
        reveal_strlit("guess");
        reveal_strlit("guest");
        reveal_strlit("guide");
        reveal_strlit("guild");
        reveal_strlit("guile");
        reveal_strlit("guilt");
        reveal_strlit("guise");
        reveal_strlit("gulch");
        assert(words.deep_view().subrange(0, old(words).deep_view().len() as int)
            =~= old(words).deep_view());
        assert(words.deep_view().subrange(
            old(words).deep_view().len() as int,
            words.deep_view().len() as int,
        ) =~= words_view_13());
    }
}

spec fn words_view_14() -> Seq<Seq<char>> {
    seq!["gully"@, "gumbo"@, "gummy"@, "guppy"@, "gusto"@, "gusty"@, "gypsy"@, "habit"@, "hairy"@, "halve"@, "handy"@, "happy"@, "hardy"@, "harem"@, "harpy"@, "harry"@, "harsh"@, "haste"@, "hasty"@, "hatch"@, "hater"@, "haunt"@, "haute"@, "haven"@, "havoc"@, "hazel"@, "heady"@, "heard"@, "heart"@, "heath"@, "heave"@, "heavy"@, "hedge"@, "hefty"@, "heist"@, "helix"@, "hello"@, "hence"@, "heron"@, "hilly"@, "hinge"@, "hippo"@, "hippy"@, "hitch"@, "hoard"@, "hobby"@, "hoist"@, "holly"@, "homer"@, "honey"@]
}

#[verifier::rlimit(100)]
fn push_words_14(words: &mut Vec<&'static str>)
    ensures
        final(words).deep_view().len() == old(words).deep_view().len() + 50,
        final(words).deep_view().subrange(0, old(words).deep_view().len() as int)
            == old(words).deep_view(),
        final(words).deep_view().subrange(
            old(words).deep_view().len() as int,
            final(words).deep_view().len() as int,
        ) == words_view_14(),
        forall|j: int|
            old(words).deep_view().len() <= j < final(words).deep_view().len()
                ==> (#[trigger] final(words).deep_view()[j]).len() == 5,
{
    words.push("gully");
    words.push("gumbo");
    words.push("gummy");
    words.push("guppy");
    words.push("gusto");
    words.push("gusty");
    words.push("gypsy");
    words.push("habit");
    words.push("hairy");
    words.push("halve");
    words.push("handy");
    words.push("happy");
    words.push("hardy");
    words.push("harem");
    words.push("harpy");
    words.push("harry");
    words.push("harsh");
    words.push("haste");
    words.push("hasty");
    words.push("hatch");
    words.push("hater");
    words.push("haunt");
    words.push("haute");
    words.push("haven");
    words.push("havoc");
    words.push("hazel");
    words.push("heady");
    words.push("heard");
    words.push("heart");
    words.push("heath");
    words.push("heave");
    words.push("heavy");
    words.push("hedge");
    words.push("hefty");
    words.push("heist");
    words.push("helix");
    words.push("hello");
    words.push("hence");
    words.push("heron");
    words.push("hilly");
    words.push("hinge");
    words.push("hippo");
    words.push("hippy");
    words.push("hitch");
    words.push("hoard");
    words.push("hobby");
    words.push("hoist");
    words.push("holly");
    words.push("homer");
    words.push("honey");
    proof {
        reveal_strlit("gully");
        reveal_strlit("gumbo");
        reveal_strlit("gummy");
        reveal_strlit("guppy");
        reveal_strlit("gusto");
        reveal_strlit("gusty");
        reveal_strlit("gypsy");
        reveal_strlit("habit");
        reveal_strlit("hairy");
        reveal_strlit("halve");
        reveal_strlit("handy");
        reveal_strlit("happy");
        reveal_strlit("hardy");
        reveal_strlit("harem");
        reveal_strlit("harpy");
        reveal_strlit("harry");
        reveal_strlit("harsh");
        reveal_strlit("haste");
        reveal_strlit("hasty");
        reveal_strlit("hatch");
        reveal_strlit("hater");
        reveal_strlit("haunt");
        reveal_strlit("haute");
        reveal_strlit("haven");
        reveal_strlit("havoc");
        reveal_strlit("hazel");
        reveal_strlit("heady");
        reveal_strlit("heard");
        reveal_strlit("heart");
        reveal_strlit("heath");
        reveal_strlit("heave");
        reveal_strlit("heavy");
        reveal_strlit("hedge");
        reveal_strlit("hefty");
        reveal_strlit("heist");
        reveal_strlit("helix");
        reveal_strlit("hello");
        reveal_strlit("hence");
        reveal_strlit("heron");
        reveal_strlit("hilly");
        reveal_strlit("hinge");
        reveal_strlit("hippo");
        reveal_strlit("hippy");
        reveal_strlit("hitch");
        reveal_strlit("hoard");
        reveal_strlit("hobby");
        reveal_strlit("hoist");
        reveal_strlit("holly");
        reveal_strlit("homer");
        reveal_strlit("honey");
        assert(words.deep_view().subrange(0, old(words).deep_view().len() as int)
            =~= old(words).deep_view());
        assert(words.deep_view().subrange(
            old(words).deep_view().len() as int,
            words.deep_view().len() as int,
        ) =~= words_view_14());
    }
}

spec fn words_view_15() -> Seq<Seq<char>> {
    seq!["honor"@, "horde"@, "horny"@, "horse"@, "hotel"@, "hotly"@, "hound"@, "house"@, "hovel"@, "hover"@, "howdy"@, "human"@, "humid"@, "humor"@, "humph"@, "humus"@, "hunch"@, "hunky"@, "hurry"@, "husky"@, "hussy"@, "hutch"@, "hydro"@, "hyena"@, "hymen"@, "hyper"@, "icily"@, "icing"@, "ideal"@, "idiom"@, "idiot"@, "idler"@, "idyll"@, "igloo"@, "iliac"@, "image"@, "imbue"@, "impel"@, "inane"@, "inbox"@, "incur"@, "index"@, "inept"@, "inert"@, "infer"@, "ingot"@, "inlay"@, "inlet"@, "inner"@, "input"@]
}

#[verifier::rlimit(100)]
fn push_words_15(words: &mut Vec<&'static str>)
    ensures
        final(words).deep_view().len() == old(words).deep_view().len() + 50,
        final(words).deep_view().subrange(0, old(words).deep_view().len() as int)
            == old(words).deep_view(),
        final(words).deep_view().subrange(
            old(words).deep_view().len() as int,
            final(words).deep_view().len() as int,
        ) == words_view_15(),
        forall|j: int|
            old(words).deep_view().len() <= j < final(words).deep_view().len()
                ==> (#[trigger] final(words).deep_view()[j]).len() == 5,
{
    words.push("honor");
    words.push("horde");
    words.push("horny");
    words.push("horse");
    words.push("hotel");
    words.push("hotly");
    words.push("hound");
    words.push("house");
    words.push("hovel");
    words.push("hover");
    words.push("howdy");
    words.push("human");
    words.push("humid");
    words.push("humor");
    words.push("humph");
    words.push("humus");
    words.push("hunch");
    words.push("hunky");
    words.push("hurry");
    words.push("husky");
    words.push("hussy");
    words.push("hutch");
    words.push("hydro");
    words.push("hyena");
    words.push("hymen");
    words.push("hyper");
    words.push("icily");
    words.push("icing");
    words.push("ideal");
    words.push("idiom");
    words.push("idiot");
    words.push("idler");
    words.push("idyll");
    words.push("igloo");
    words.push("iliac");
    words.push("image");
    words.push("imbue");
    words.push("impel");
    words.push("inane");
    words.push("inbox");
    words.push("incur");
    words.push("index");
    words.push("inept");
    words.push("inert");
    words.push("infer");
    words.push("ingot");
    words.push("inlay");
    words.push("inlet");
    words.push("inner");
    words.push("input");
    proof {
        reveal_strlit("honor");
        reveal_strlit("horde");
        reveal_strlit("horny");
        reveal_strlit("horse");
        reveal_strlit("hotel");
        reveal_strlit("hotly");
        reveal_strlit("hound");
        reveal_strlit("house");
        reveal_strlit("hovel");
        reveal_strlit("hover");
        reveal_strlit("howdy");
        reveal_strlit("human");
        reveal_strlit("humid");
        reveal_strlit("humor");
        reveal_strlit("humph");
        reveal_strlit("humus");
        reveal_strlit("hunch");
        reveal_strlit("hunky");
        reveal_strlit("hurry");
        reveal_strlit("husky");
        reveal_strlit("hussy");
        reveal_strlit("hutch");
        reveal_strlit("hydro");
        reveal_strlit("hyena");
        reveal_strlit("hymen");
        reveal_strlit("hyper");
        reveal_strlit("icily");
        reveal_strlit("icing");
        reveal_strlit("ideal");
        reveal_strlit("idiom");
        reveal_strlit("idiot");
        reveal_strlit("idler");
        reveal_strlit("idyll");
        reveal_strlit("igloo");
        reveal_strlit("iliac");
        reveal_strlit("image");
        reveal_strlit("imbue");
        reveal_strlit("impel");
        reveal_strlit("inane");
        reveal_strlit("inbox");
        reveal_strlit("incur");
        reveal_strlit("index");
        reveal_strlit("inept");
        reveal_strlit("inert");
        reveal_strlit("infer");
        reveal_strlit("ingot");
        reveal_strlit("inlay");
        reveal_strlit("inlet");
        reveal_strlit("inner");
        reveal_strlit("input");
        assert(words.deep_view().subrange(0, old(words).deep_view().len() as int)
            =~= old(words).deep_view());
        assert(words.deep_view().subrange(
            old(words).deep_view().len() as int,
            words.deep_view().len() as int,
        ) =~= words_view_15());
    }
}

spec fn words_view_16() -> Seq<Seq<char>> {
    seq!["inter"@, "intro"@, "ionic"@, "irate"@, "irony"@, "islet"@, "issue"@, "itchy"@, "ivory"@, "jaunt"@, "jazzy"@, "jelly"@, "jerky"@, "jetty"@, "jewel"@, "jiffy"@, "joint"@, "joist"@, "joker"@, "jolly"@, "joust"@, "judge"@, "juice"@, "juicy"@, "jumbo"@, "jumpy"@, "junta"@, "junto"@, "juror"@, "kappa"@, "karma"@, "kayak"@, "kebab"@, "khaki"@, "kinky"@, "kiosk"@, "kitty"@, "knack"@, "knave"@, "knead"@, "kneed"@, "kneel"@, "knelt"@, "knife"@, "knock"@, "knoll"@, "known"@, "koala"@, "krill"@, "label"@]
}

#[verifier::rlimit(100)]
fn push_words_16(words: &mut Vec<&'static str>)
    ensures
        final(words).deep_view().len() == old(words).deep_view().len() + 50,
        final(words).deep_view().subrange(0, old(words).deep_view().len() as int)
            == old(words).deep_view(),
        final(words).deep_view().subrange(
            old(words).deep_view().len() as int,
            final(words).deep_view().len() as int,
        ) == words_view_16(),
        forall|j: int|
            old(words).deep_view().len() <= j < final(words).deep_view().len()
                ==> (#[trigger] final(words).deep_view()[j]).len() == 5,
{
    words.push("inter");
    words.push("intro");
    words.push("ionic");
    words.push("irate");
    words.push("irony");
    words.push("islet");
    words.push("issue");
    words.push("itchy");
    words.push("ivory");
    words.push("jaunt");
    words.push("jazzy");
    words.push("jelly");
    words.push("jerky");
    words.push("jetty");
    words.push("jewel");
    words.push("jiffy");
    words.push("joint");
    words.push("joist");
    words.push("joker");
    words.push("jolly");
    words.push("joust");
    words.push("judge");
    words.push("juice");
    words.push("juicy");
    words.push("jumbo");
    words.push("jumpy");
    words.push("junta");
    words.push("junto");
    words.push("juror");
    words.push("kappa");
    words.push("karma");
    words.push("kayak");
    words.push("kebab");
    words.push("khaki");
    words.push("kinky");
    words.push("kiosk");
    words.push("kitty");
    words.push("knack");
    words.push("knave");
    words.push("knead");
    words.push("kneed");
    words.push("kneel");
    words.push("knelt");
    words.push("knife");
    words.push("knock");
    words.push("knoll");
    words.push("known");
    words.push("koala");
    words.push("krill");
    words.push("label");
    proof {
        reveal_strlit("inter");
        reveal_strlit("intro");
        reveal_strlit("ionic");
        reveal_strlit("irate");
        reveal_strlit("irony");
        reveal_strlit("islet");
        reveal_strlit("issue");
        reveal_strlit("itchy");
        reveal_strlit("ivory");
        reveal_strlit("jaunt");
        reveal_strlit("jazzy");
        reveal_strlit("jelly");
        reveal_strlit("jerky");
        reveal_strlit("jetty");
        reveal_strlit("jewel");
        reveal_strlit("jiffy");
        reveal_strlit("joint");
        reveal_strlit("joist");
        reveal_strlit("joker");
        reveal_strlit("jolly");
        reveal_strlit("joust");
        reveal_strlit("judge");
        reveal_strlit("juice");
        reveal_strlit("juicy");
        reveal_strlit("jumbo");
        reveal_strlit("jumpy");
        reveal_strlit("junta");
        reveal_strlit("junto");
        reveal_strlit("juror");
        reveal_strlit("kappa");
        reveal_strlit("karma");
        reveal_strlit("kayak");
        reveal_strlit("kebab");
        reveal_strlit("khaki");
        reveal_strlit("kinky");
        reveal_strlit("kiosk");
        reveal_strlit("kitty");
        reveal_strlit("knack");
        reveal_strlit("knave");
        reveal_strlit("knead");
        reveal_strlit("kneed");
        reveal_strlit("kneel");
        reveal_strlit("knelt");
        reveal_strlit("knife");
        reveal_strlit("knock");
        reveal_strlit("knoll");
        reveal_strlit("known");
        reveal_strlit("koala");
        reveal_strlit("krill");
        reveal_strlit("label");
        assert(words.deep_view().subrange(0, old(words).deep_view().len() as int)
            =~= old(words).deep_view());
        assert(words.deep_view().subrange(
            old(words).deep_view().len() as int,
            words.deep_view().len() as int,
        ) =~= words_view_16());
    }
}

spec fn words_view_17() -> Seq<Seq<char>> {
    seq!["labor"@, "laden"@, "ladle"@, "lager"@, "lance"@, "lanky"@, "lapel"@, "lapse"@, "large"@, "larva"@, "lasso"@, "latch"@, "later"@, "lathe"@, "latte"@, "laugh"@, "layer"@, "leach"@, "leafy"@, "leaky"@, "leant"@, "leapt"@, "learn"@, "lease"@, "leash"@, "least"@, "leave"@, "ledge"@, "leech"@, "leery"@, "lefty"@, "legal"@, "leggy"@, "lemon"@, "lemur"@, "leper"@, "level"@, "lever"@, "libel"@, "liege"@, "light"@, "liken"@, "lilac"@, "limbo"@, "limit"@, "linen"@, "liner"@, "lingo"@, "lipid"@, "lithe"@]
}

#[verifier::rlimit(100)]
fn push_words_17(words: &mut Vec<&'static str>)
    ensures
        final(words).deep_view().len() == old(words).deep_view().len() + 50,
        final(words).deep_view().subrange(0, old(words).deep_view().len() as int)
            == old(words).deep_view(),
        final(words).deep_view().subrange(
            old(words).deep_view().len() as int,
            final(words).deep_view().len() as int,
        ) == words_view_17(),
        forall|j: int|
            old(words).deep_view().len() <= j < final(words).deep_view().len()
                ==> (#[trigger] final(words).deep_view()[j]).len() == 5,
{
    words.push("labor");
    words.push("laden");
    words.push("ladle");
    words.push("lager");
    words.push("lance");
    words.push("lanky");
    words.push("lapel");
    words.push("lapse");
    words.push("large");
    words.push("larva");
    words.push("lasso");
    words.push("latch");
    words.push("later");
    words.push("lathe");
    words.push("latte");
    words.push("laugh");
    words.push("layer");
    words.push("leach");
    words.push("leafy");
    words.push("leaky");
    words.push("leant");
    words.push("leapt");
    words.push("learn");
    words.push("lease");
    words.push("leash");
    words.push("least");
    words.push("leave");
    words.push("ledge");
    words.push("leech");
    words.push("leery");
    words.push("lefty");
    words.push("legal");
    words.push("leggy");
    words.push("lemon");
    words.push("lemur");
    words.push("leper");
    words.push("level");
    words.push("lever");
    words.push("libel");
    words.push("liege");
    words.push("light");
    words.push("liken");
    words.push("lilac");
    words.push("limbo");
    words.push("limit");
    words.push("linen");
    words.push("liner");
    words.push("lingo");
    words.push("lipid");
    words.push("lithe");
    proof {
        reveal_strlit("labor");
        reveal_strlit("laden");
        reveal_strlit("ladle");
        reveal_strlit("lager");
        reveal_strlit("lance");
        reveal_strlit("lanky");
        reveal_strlit("lapel");
        reveal_strlit("lapse");
        reveal_strlit("large");
        reveal_strlit("larva");
        reveal_strlit("lasso");
        reveal_strlit("latch");
        reveal_strlit("later");
        reveal_strlit("lathe");
        reveal_strlit("latte");
        reveal_strlit("laugh");
        reveal_strlit("layer");
        reveal_strlit("leach");
        reveal_strlit("leafy");
        reveal_strlit("leaky");
        reveal_strlit("leant");
        reveal_strlit("leapt");
        reveal_strlit("learn");
        reveal_strlit("lease");
        reveal_strlit("leash");
        reveal_strlit("least");
        reveal_strlit("leave");
        reveal_strlit("ledge");
        reveal_strlit("leech");
        reveal_strlit("leery");
        reveal_strlit("lefty");
        reveal_strlit("legal");
        reveal_strlit("leggy");
        reveal_strlit("lemon");
        reveal_strlit("lemur");
        reveal_strlit("leper");
        reveal_strlit("level");
        reveal_strlit("lever");
        reveal_strlit("libel");
        reveal_strlit("liege");
        reveal_strlit("light");
        reveal_strlit("liken");
        reveal_strlit("lilac");
        reveal_strlit("limbo");
        reveal_strlit("limit");
        reveal_strlit("linen");
        reveal_strlit("liner");
        reveal_strlit("lingo");
        reveal_strlit("lipid");
        reveal_strlit("lithe");
        assert(words.deep_view().subrange(0, old(words).deep_view().len() as int)
            =~= old(words).deep_view());
        assert(words.deep_view().subrange(
            old(words).deep_view().len() as int,
            words.deep_view().len() as int,
        ) =~= words_view_17());
    }
}

spec fn words_view_18() -> Seq<Seq<char>> {
    seq!["liver"@, "livid"@, "llama"@, "loamy"@, "loath"@, "lobby"@, "local"@, "locus"@, "lodge"@, "lofty"@, "logic"@, "login"@, "loopy"@, "loose"@, "lorry"@, "loser"@, "louse"@, "lousy"@, "lover"@, "lower"@, "lowly"@, "loyal"@, "lucid"@, "lucky"@, "lumen"@, "lumpy"@, "lunar"@, "lunch"@, "lunge"@, "lupus"@, "lurch"@, "lurid"@, "lusty"@, "lying"@, "lymph"@, "lynch"@, "lyric"@, "macaw"@, "macho"@, "macro"@, "madam"@, "madly"@, "mafia"@, "magic"@, "magma"@, "maize"@, "major"@, "maker"@, "mambo"@, "mamma"@]
}

#[verifier::rlimit(100)]
fn push_words_18(words: &mut Vec<&'static str>)
    ensures
        final(words).deep_view().len() == old(words).deep_view().len() + 50,
        final(words).deep_view().subrange(0, old(words).deep_view().len() as int)
            == old(words).deep_view(),
        final(words).deep_view().subrange(
            old(words).deep_view().len() as int,
            final(words).deep_view().len() as int,
        ) == words_view_18(),
        forall|j: int|
            old(words).deep_view().len() <= j < final(words).deep_view().len()
                ==> (#[trigger] final(words).deep_view()[j]).len() == 5,
{
    words.push("liver");
    words.push("livid");
    words.push("llama");
    words.push("loamy");
    words.push("loath");
    words.push("lobby");
    words.push("local");
    words.push("locus");
    words.push("lodge");
    words.push("lofty");
    words.push("logic");
    words.push("login");
    words.push("loopy");
    words.push("loose");
    words.push("lorry");
    words.push("loser");
    words.push("louse");
    words.push("lousy");
    words.push("lover");
    words.push("lower");
    words.push("lowly");
    words.push("loyal");
    words.push("lucid");
    words.push("lucky");
    words.push("lumen");
    words.push("lumpy");
    words.push("lunar");
    words.push("lunch");
    words.push("lunge");
    words.push("lupus");
    words.push("lurch");
    words.push("lurid");
    words.push("lusty");
    words.push("lying");
    words.push("lymph");
    words.push("lynch");
    words.push("lyric");
    words.push("macaw");
    words.push("macho");
    words.push("macro");
    words.push("madam");
    words.push("madly");
    words.push("mafia");
    words.push("magic");
    words.push("magma");
    words.push("maize");
    words.push("major");
    words.push("maker");
    words.push("mambo");
    words.push("mamma");
    proof {
        reveal_strlit("liver");
        reveal_strlit("livid");
        reveal_strlit("llama");
        reveal_strlit("loamy");
        reveal_strlit("loath");
        reveal_strlit("lobby");
        reveal_strlit("local");
        reveal_strlit("locus");
        reveal_strlit("lodge");
        reveal_strlit("lofty");
        reveal_strlit("logic");
        reveal_strlit("login");
        reveal_strlit("loopy");
        reveal_strlit("loose");
        reveal_strlit("lorry");
        reveal_strlit("loser");
        reveal_strlit("louse");
        reveal_strlit("lousy");
        reveal_strlit("lover");
        reveal_strlit("lower");
        reveal_strlit("lowly");
        reveal_strlit("loyal");
        reveal_strlit("lucid");
        reveal_strlit("lucky");
        reveal_strlit("lumen");
        reveal_strlit("lumpy");
        reveal_strlit("lunar");
        reveal_strlit("lunch");
        reveal_strlit("lunge");
        reveal_strlit("lupus");
        reveal_strlit("lurch");
        reveal_strlit("lurid");
        reveal_strlit("lusty");
        reveal_strlit("lying");
        reveal_strlit("lymph");
        reveal_strlit("lynch");
        reveal_strlit("lyric");
        reveal_strlit("macaw");
        reveal_strlit("macho");
        reveal_strlit("macro");
        reveal_strlit("madam");
        reveal_strlit("madly");
        reveal_strlit("mafia");
        reveal_strlit("magic");
        reveal_strlit("magma");
        reveal_strlit("maize");
        reveal_strlit("major");
        reveal_strlit("maker");
        reveal_strlit("mambo");
        reveal_strlit("mamma");
        assert(words.deep_view().subrange(0, old(words).deep_view().len() as int)
            =~= old(words).deep_view());
        assert(words.deep_view().subrange(
            old(words).deep_view().len() as int,
            words.deep_view().len() as int,
        ) =~= words_view_18());
    }
}

spec fn words_view_19() -> Seq<Seq<char>> {
    seq!["mammy"@, "manga"@, "mange"@, "mango"@, "mangy"@, "mania"@, "manic"@, "manly"@, "manor"@, "maple"@, "march"@, "marry"@, "marsh"@, "mason"@, "masse"@, "match"@, "matey"@, "mauve"@, "maxim"@, "maybe"@, "mayor"@, "mealy"@, "meant"@, "meaty"@, "mecca"@, "medal"@, "media"@, "medic"@, "melee"@, "melon"@, "mercy"@, "merge"@, "merit"@, "merry"@, "metal"@, "meter"@, "metro"@, "micro"@, "midge"@, "midst"@, "might"@, "milky"@, "mimic"@, "mince"@, "miner"@, "minim"@, "minor"@, "minty"@, "minus"@, "mirth"@]
}

#[verifier::rlimit(100)]
fn push_words_19(words: &mut Vec<&'static str>)
    ensures
        final(words).deep_view().len() == old(words).deep_view().len() + 50,
        final(words).deep_view().subrange(0, old(words).deep_view().len() as int)
            == old(words).deep_view(),
        final(words).deep_view().subrange(
            old(words).deep_view().len() as int,
            final(words).deep_view().len() as int,
        ) == words_view_19(),
        forall|j: int|
            old(words).deep_view().len() <= j < final(words).deep_view().len()
                ==> (#[trigger] final(words).deep_view()[j]).len() == 5,
{
    words.push("mammy");
    words.push("manga");
    words.push("mange");
    words.push("mango");
    words.push("mangy");
    words.push("mania");
    words.push("manic");
    words.push("manly");
    words.push("manor");
    words.push("maple");
    words.push("march");
    words.push("marry");
    words.push("marsh");
    words.push("mason");
    words.push("masse");
    words.push("match");
    words.push("matey");
    words.push("mauve");
    words.push("maxim");
    words.push("maybe");
    words.push("mayor");
    words.push("mealy");
    words.push("meant");
    words.push("meaty");
    words.push("mecca");
    words.push("medal");
    words.push("media");
    words.push("medic");
    words.push("melee");
    words.push("melon");
    words.push("mercy");
    words.push("merge");
    words.push("merit");
    words.push("merry");
    words.push("metal");
    words.push("meter");
    words.push("metro");
    words.push("micro");
    words.push("midge");
    words.push("midst");
    words.push("might");
    words.push("milky");
    words.push("mimic");
    words.push("mince");
    words.push("miner");
    words.push("minim");
    words.push("minor");
    words.push("minty");
    words.push("minus");
    words.push("mirth");
    proof {
        reveal_strlit("mammy");
        reveal_strlit("manga");
        reveal_strlit("mange");
        reveal_strlit("mango");
        reveal_strlit("mangy");
        reveal_strlit("mania");
        reveal_strlit("manic");
        reveal_strlit("manly");
        reveal_strlit("manor");
        reveal_strlit("maple");
        reveal_strlit("march");
        reveal_strlit("marry");
        reveal_strlit("marsh");
        reveal_strlit("mason");
        reveal_strlit("masse");
        reveal_strlit("match");
        reveal_strlit("matey");
        reveal_strlit("mauve");
        reveal_strlit("maxim");
        reveal_strlit("maybe");
        reveal_strlit("mayor");
        reveal_strlit("mealy");
        reveal_strlit("meant");
        reveal_strlit("meaty");
        reveal_strlit("mecca");
        reveal_strlit("medal");
        reveal_strlit("media");
        reveal_strlit("medic");
        reveal_strlit("melee");
        reveal_strlit("melon");
        reveal_strlit("mercy");
        reveal_strlit("merge");
        reveal_strlit("merit");
        reveal_strlit("merry");
        reveal_strlit("metal");
        reveal_strlit("meter");
        reveal_strlit("metro");
        reveal_strlit("micro");
        reveal_strlit("midge");
        reveal_strlit("midst");
        reveal_strlit("might");
        reveal_strlit("milky");
        reveal_strlit("mimic");
        reveal_strlit("mince");
        reveal_strlit("miner");
        reveal_strlit("minim");
        reveal_strlit("minor");
        reveal_strlit("minty");
        reveal_strlit("minus");
        reveal_strlit("mirth");
        assert(words.deep_view().subrange(0, old(words).deep_view().len() as int)
            =~= old(words).deep_view());
        assert(words.deep_view().subrange(
            old(words).deep_view().len() as int,
            words.deep_view().len() as int,
        ) =~= words_view_19());
    }
}

spec fn words_view_20() -> Seq<Seq<char>> {
    seq!["miser"@, "missy"@, "mocha"@, "modal"@, "model"@, "modem"@, "mogul"@, "moist"@, "molar"@, "moldy"@, "money"@, "month"@, "moody"@, "moose"@, "moral"@, "moron"@, "morph"@, "mossy"@, "motel"@, "motif"@, "motor"@, "motto"@, "moult"@, "mound"@, "mount"@, "mourn"@, "mouse"@, "mouth"@, "mover"@, "movie"@, "mower"@, "mucky"@, "mucus"@, "muddy"@, "mulch"@, "mummy"@, "munch"@, "mural"@, "murky"@, "mushy"@, "music"@, "musky"@, "musty"@, "myrrh"@, "nadir"@, "naive"@, "nanny"@, "nasal"@, "nasty"@, "natal"@]
}

#[verifier::rlimit(100)]
fn push_words_20(words: &mut Vec<&'static str>)
    ensures
        final(words).deep_view().len() == old(words).deep_view().len() + 50,
        final(words).deep_view().subrange(0, old(words).deep_view().len() as int)
            == old(words).deep_view(),
        final(words).deep_view().subrange(
            old(words).deep_view().len() as int,
            final(words).deep_view().len() as int,
        ) == words_view_20(),
        forall|j: int|
            old(words).deep_view().len() <= j < final(words).deep_view().len()
                ==> (#[trigger] final(words).deep_view()[j]).len() == 5,
{
    words.push("miser");
    words.push("missy");
    words.push("mocha");
    words.push("modal");
    words.push("model");
    words.push("modem");
    words.push("mogul");
    words.push("moist");
    words.push("molar");
    words.push("moldy");
    words.push("money");
    words.push("month");
    words.push("moody");
    words.push("moose");
    words.push("moral");
    words.push("moron");
    words.push("morph");
    words.push("mossy");
    words.push("motel");
    words.push("motif");
    words.push("motor");
    words.push("motto");
    words.push("moult");
    words.push("mound");
    words.push("mount");
    words.push("mourn");
    words.push("mouse");
    words.push("mouth");
    words.push("mover");
    words.push("movie");
    words.push("mower");
    words.push("mucky");
    words.push("mucus");
    words.push("muddy");
    words.push("mulch");
    words.push("mummy");
    words.push("munch");
    words.push("mural");
    words.push("murky");
    words.push("mushy");
    words.push("music");
    words.push("musky");
    words.push("musty");
    words.push("myrrh");
    words.push("nadir");
    words.push("naive");
    words.push("nanny");
    words.push("nasal");
    words.push("nasty");
    words.push("natal");
    proof {
        reveal_strlit("miser");
        reveal_strlit("missy");
        reveal_strlit("mocha");
        reveal_strlit("modal");
        reveal_strlit("model");
        reveal_strlit("modem");
        reveal_strlit("mogul");
        reveal_strlit("moist");
        reveal_strlit("molar");
        reveal_strlit("moldy");
        reveal_strlit("money");
        reveal_strlit("month");
        reveal_strlit("moody");
        reveal_strlit("moose");
        reveal_strlit("moral");
        reveal_strlit("moron");
        reveal_strlit("morph");
        reveal_strlit("mossy");
        reveal_strlit("motel");
        reveal_strlit("motif");
        reveal_strlit("motor");
        reveal_strlit("motto");
        reveal_strlit("moult");
        reveal_strlit("mound");
        reveal_strlit("mount");
        reveal_strlit("mourn");
        reveal_strlit("mouse");
        reveal_strlit("mouth");
        reveal_strlit("mover");
        reveal_strlit("movie");
        reveal_strlit("mower");
        reveal_strlit("mucky");
        reveal_strlit("mucus");
        reveal_strlit("muddy");
        reveal_strlit("mulch");
        reveal_strlit("mummy");
        reveal_strlit("munch");
        reveal_strlit("mural");
        reveal_strlit("murky");
        reveal_strlit("mushy");
        reveal_strlit("music");
        reveal_strlit("musky");
        reveal_strlit("musty");
        reveal_strlit("myrrh");
        reveal_strlit("nadir");
        reveal_strlit("naive");
        reveal_strlit("nanny");
        reveal_strlit("nasal");
        reveal_strlit("nasty");
        reveal_strlit("natal");
        assert(words.deep_view().subrange(0, old(words).deep_view().len() as int)
            =~= old(words).deep_view());
        assert(words.deep_view().subrange(
            old(words).deep_view().len() as int,
            words.deep_view().len() as int,
        ) =~= words_view_20());
    }
}

spec fn words_view_21() -> Seq<Seq<char>> {
    seq!["naval"@, "navel"@, "needy"@, "neigh"@, "nerdy"@, "nerve"@, "never"@, "newer"@, "newly"@, "nicer"@, "niche"@, "niece"@, "night"@, "ninja"@, "ninny"@, "ninth"@, "noble"@, "nobly"@, "noise"@, "noisy"@, "nomad"@, "noose"@, "north"@, "nosey"@, "notch"@, "novel"@, "nudge"@, "nurse"@, "nutty"@, "nylon"@, "nymph"@, "oaken"@, "obese"@, "occur"@, "ocean"@, "octal"@, "octet"@, "odder"@, "oddly"@, "offal"@, "offer"@, "often"@, "olden"@, "older"@, "olive"@, "ombre"@, "omega"@, "onion"@, "onset"@, "opera"@]
}

#[verifier::rlimit(100)]
fn push_words_21(words: &mut Vec<&'static str>)
    ensures
        final(words).deep_view().len() == old(words).deep_view().len() + 50,
        final(words).deep_view().subrange(0, old(words).deep_view().len() as int)
            == old(words).deep_view(),
        final(words).deep_view().subrange(
            old(words).deep_view().len() as int,
            final(words).deep_view().len() as int,
        ) == words_view_21(),
        forall|j: int|
            old(words).deep_view().len() <= j < final(words).deep_view().len()
                ==> (#[trigger] final(words).deep_view()[j]).len() == 5,
{
    words.push("naval");
    words.push("navel");
    words.push("needy");
    words.push("neigh");
    words.push("nerdy");
    words.push("nerve");
    words.push("never");
    words.push("newer");
    words.push("newly");
    words.push("nicer");
    words.push("niche");
    words.push("niece");
    words.push("night");
    words.push("ninja");
    words.push("ninny");
    words.push("ninth");
    words.push("noble");
    words.push("nobly");
    words.push("noise");
    words.push("noisy");
    words.push("nomad");
    words.push("noose");
    words.push("north");
    words.push("nosey");
    words.push("notch");
    words.push("novel");
    words.push("nudge");
    words.push("nurse");
    words.push("nutty");
    words.push("nylon");
    words.push("nymph");
    words.push("oaken");
    words.push("obese");
    words.push("occur");
    words.push("ocean");
    words.push("octal");
    words.push("octet");
    words.push("odder");
    words.push("oddly");
    words.push("offal");
    words.push("offer");
    words.push("often");
    words.push("olden");
    words.push("older");
    words.push("olive");
    words.push("ombre");
    words.push("omega");
    words.push("onion");
    words.push("onset");
    words.push("opera");
    proof {
        reveal_strlit("naval");
        reveal_strlit("navel");
        reveal_strlit("needy");
        reveal_strlit("neigh");
        reveal_strlit("nerdy");
        reveal_strlit("nerve");
        reveal_strlit("never");
        reveal_strlit("newer");
        reveal_strlit("newly");
        reveal_strlit("nicer");
        reveal_strlit("niche");
        reveal_strlit("niece");
        reveal_strlit("night");
        reveal_strlit("ninja");
        reveal_strlit("ninny");
        reveal_strlit("ninth");
        reveal_strlit("noble");
        reveal_strlit("nobly");
        reveal_strlit("noise");
        reveal_strlit("noisy");
        reveal_strlit("nomad");
        reveal_strlit("noose");
        reveal_strlit("north");
        reveal_strlit("nosey");
        reveal_strlit("notch");
        reveal_strlit("novel");
        reveal_strlit("nudge");
        reveal_strlit("nurse");
        reveal_strlit("nutty");
        reveal_strlit("nylon");
        reveal_strlit("nymph");
        reveal_strlit("oaken");
        reveal_strlit("obese");
        reveal_strlit("occur");
        reveal_strlit("ocean");
        reveal_strlit("octal");
        reveal_strlit("octet");
        reveal_strlit("odder");
        reveal_strlit("oddly");
        reveal_strlit("offal");
        reveal_strlit("offer");
        reveal_strlit("often");
        reveal_strlit("olden");
        reveal_strlit("older");
        reveal_strlit("olive");
        reveal_strlit("ombre");
        reveal_strlit("omega");
        reveal_strlit("onion");
        reveal_strlit("onset");
        reveal_strlit("opera");
        assert(words.deep_view().subrange(0, old(words).deep_view().len() as int)
            =~= old(words).deep_view());
        assert(words.deep_view().subrange(
            old(words).deep_view().len() as int,
            words.deep_view().len() as int,
        ) =~= words_view_21());
    }
}

spec fn words_view_22() -> Seq<Seq<char>> {
    seq!["opine"@, "opium"@, "optic"@, "orbit"@, "order"@, "organ"@, "other"@, "otter"@, "ought"@, "ounce"@, "outdo"@, "outer"@, "outgo"@, "ovary"@, "ovate"@, "overt"@, "ovine"@, "ovoid"@, "owing"@, "owner"@, "oxide"@, "ozone"@, "paddy"@, "pagan"@, "paint"@, "paler"@, "palsy"@, "panel"@, "panic"@, "pansy"@, "papal"@, "paper"@, "parer"@, "parka"@, "parry"@, "parse"@, "party"@, "pasta"@, "paste"@, "pasty"@, "patch"@, "patio"@, "patsy"@, "patty"@, "pause"@, "payee"@, "payer"@, "peace"@, "peach"@, "pearl"@]
}

#[verifier::rlimit(100)]
fn push_words_22(words: &mut Vec<&'static str>)
    ensures
        final(words).deep_view().len() == old(words).deep_view().len() + 50,
        final(words).deep_view().subrange(0, old(words).deep_view().len() as int)
            == old(words).deep_view(),
        final(words).deep_view().subrange(
            old(words).deep_view().len() as int,
            final(words).deep_view().len() as int,
        ) == words_view_22(),
        forall|j: int|
            old(words).deep_view().len() <= j < final(words).deep_view().len()
                ==> (#[trigger] final(words).deep_view()[j]).len() == 5,
{
    words.push("opine");
    words.push("opium");
    words.push("optic");
    words.push("orbit");
    words.push("order");
    words.push("organ");
    words.push("other");
    words.push("otter");
    words.push("ought");
    words.push("ounce");
    words.push("outdo");
    words.push("outer");
    words.push("outgo");
    words.push("ovary");
    words.push("ovate");
    words.push("overt");
    words.push("ovine");
    words.push("ovoid");
    words.push("owing");
    words.push("owner");
    words.push("oxide");
    words.push("ozone");
    words.push("paddy");
    words.push("pagan");
    words.push("paint");
    words.push("paler");
    words.push("palsy");
    words.push("panel");
    words.push("panic");
    words.push("pansy");
    words.push("papal");
    words.push("paper");
    words.push("parer");
    words.push("parka");
    words.push("parry");
    words.push("parse");
    words.push("party");
    words.push("pasta");
    words.push("paste");
    words.push("pasty");
    words.push("patch");
    words.push("patio");
    words.push("patsy");
    words.push("patty");
    words.push("pause");
    words.push("payee");
    words.push("payer");
    words.push("peace");
    words.push("peach");
    words.push("pearl");
    proof {
        reveal_strlit("opine");
        reveal_strlit("opium");
        reveal_strlit("optic");
        reveal_strlit("orbit");
        reveal_strlit("order");
        reveal_strlit("organ");
        reveal_strlit("other");
        reveal_strlit("otter");
        reveal_strlit("ought");
        reveal_strlit("ounce");
        reveal_strlit("outdo");
        reveal_strlit("outer");
        reveal_strlit("outgo");
        reveal_strlit("ovary");
        reveal_strlit("ovate");
        reveal_strlit("overt");
        reveal_strlit("ovine");
        reveal_strlit("ovoid");
        reveal_strlit("owing");
        reveal_strlit("owner");
        reveal_strlit("oxide");
        reveal_strlit("ozone");
        reveal_strlit("paddy");
        reveal_strlit("pagan");
        reveal_strlit("paint");
        reveal_strlit("paler");
        reveal_strlit("palsy");
        reveal_strlit("panel");
        reveal_strlit("panic");
        reveal_strlit("pansy");
        reveal_strlit("papal");
        reveal_strlit("paper");
        reveal_strlit("parer");
        reveal_strlit("parka");
        reveal_strlit("parry");
        reveal_strlit("parse");
        reveal_strlit("party");
        reveal_strlit("pasta");
        reveal_strlit("paste");
        reveal_strlit("pasty");
        reveal_strlit("patch");
        reveal_strlit("patio");
        reveal_strlit("patsy");
        reveal_strlit("patty");
        reveal_strlit("pause");
        reveal_strlit("payee");
        reveal_strlit("payer");
        reveal_strlit("peace");
        reveal_strlit("peach");
        reveal_strlit("pearl");
        assert(words.deep_view().subrange(0, old(words).deep_view().len() as int)
            =~= old(words).deep_view());
        assert(words.deep_view().subrange(
            old(words).deep_view().len() as int,
            words.deep_view().len() as int,
        ) =~= words_view_22());
    }
}

spec fn words_view_23() -> Seq<Seq<char>> {
    seq!["pecan"@, "pedal"@, "penal"@, "pence"@, "penne"@, "penny"@, "perch"@, "peril"@, "perky"@, "pesky"@, "pesto"@, "petal"@, "petty"@, "phase"@, "phone"@, "phony"@, "photo"@, "piano"@, "picky"@, "piece"@, "piety"@, "piggy"@, "pilot"@, "pinch"@, "piney"@, "pinky"@, "pinto"@, "piper"@, "pique"@, "pitch"@, "pithy"@, "pivot"@, "pixel"@, "pixie"@, "pizza"@, "place"@, "plaid"@, "plain"@, "plait"@, "plane"@, "plank"@, "plant"@, "plate"@, "plaza"@, "plead"@, "pleat"@, "plied"@, "plier"@, "pluck"@, "plumb"@]
}

#[verifier::rlimit(100)]
fn push_words_23(words: &mut Vec<&'static str>)
    ensures
        final(words).deep_view().len() == old(words).deep_view().len() + 50,
        final(words).deep_view().subrange(0, old(words).deep_view().len() as int)
            == old(words).deep_view(),
        final(words).deep_view().subrange(
            old(words).deep_view().len() as int,
            final(words).deep_view().len() as int,
        ) == words_view_23(),
        forall|j: int|
            old(words).deep_view().len() <= j < final(words).deep_view().len()
                ==> (#[trigger] final(words).deep_view()[j]).len() == 5,
{
    words.push("pecan");
    words.push("pedal");
    words.push("penal");
    words.push("pence");
    words.push("penne");
    words.push("penny");
    words.push("perch");
    words.push("peril");
    words.push("perky");
    words.push("pesky");
    words.push("pesto");
    words.push("petal");
    words.push("petty");
    words.push("phase");
    words.push("phone");
    words.push("phony");
    words.push("photo");
    words.push("piano");
    words.push("picky");
    words.push("piece");
    words.push("piety");
    words.push("piggy");
    words.push("pilot");
    words.push("pinch");
    words.push("piney");
    words.push("pinky");
    words.push("pinto");
    words.push("piper");
    words.push("pique");
    words.push("pitch");
    words.push("pithy");
    words.push("pivot");
    words.push("pixel");
    words.push("pixie");
    words.push("pizza");
    words.push("place");
    words.push("plaid");
    words.push("plain");
    words.push("plait");
    words.push("plane");
    words.push("plank");
    words.push("plant");
    words.push("plate");
    words.push("plaza");
    words.push("plead");
    words.push("pleat");
    words.push("plied");
    words.push("plier");
    words.push("pluck");
    words.push("plumb");
    proof {
        reveal_strlit("pecan");
        reveal_strlit("pedal");
        reveal_strlit("penal");
        reveal_strlit("pence");
        reveal_strlit("penne");
        reveal_strlit("penny");
        reveal_strlit("perch");
        reveal_strlit("peril");
        reveal_strlit("perky");
        reveal_strlit("pesky");
        reveal_strlit("pesto");
        reveal_strlit("petal");
        reveal_strlit("petty");
        reveal_strlit("phase");
        reveal_strlit("phone");
        reveal_strlit("phony");
        reveal_strlit("photo");
        reveal_strlit("piano");
        reveal_strlit("picky");
        reveal_strlit("piece");
        reveal_strlit("piety");
        reveal_strlit("piggy");
        reveal_strlit("pilot");
        reveal_strlit("pinch");
        reveal_strlit("piney");
        reveal_strlit("pinky");
        reveal_strlit("pinto");
        reveal_strlit("piper");
        reveal_strlit("pique");
        reveal_strlit("pitch");
        reveal_strlit("pithy");
        reveal_strlit("pivot");
        reveal_strlit("pixel");
        reveal_strlit("pixie");
        reveal_strlit("pizza");
        reveal_strlit("place");
        reveal_strlit("plaid");
        reveal_strlit("plain");
        reveal_strlit("plait");
        reveal_strlit("plane");
        reveal_strlit("plank");
        reveal_strlit("plant");
        reveal_strlit("plate");
        reveal_strlit("plaza");
        reveal_strlit("plead");
        reveal_strlit("pleat");
        reveal_strlit("plied");
        reveal_strlit("plier");
        reveal_strlit("pluck");
        reveal_strlit("plumb");
        assert(words.deep_view().subrange(0, old(words).deep_view().len() as int)
            =~= old(words).deep_view());
        assert(words.deep_view().subrange(
            old(words).deep_view().len() as int,
            words.deep_view().len() as int,
        ) =~= words_view_23());
    }
}

spec fn words_view_24() -> Seq<Seq<char>> {
    seq!["plume"@, "plump"@, "plunk"@, "plush"@, "poesy"@, "point"@, "poise"@, "poker"@, "polar"@, "polka"@, "polyp"@, "pooch"@, "poppy"@, "porch"@, "poser"@, "posit"@, "posse"@, "pouch"@, "pound"@, "pouty"@, "power"@, "prank"@, "prawn"@, "preen"@, "press"@, "price"@, "prick"@, "pride"@, "pried"@, "prime"@, "primo"@, "print"@, "prior"@, "prism"@, "privy"@, "prize"@, "probe"@, "prone"@, "prong"@, "proof"@, "prose"@, "proud"@, "prove"@, "prowl"@, "proxy"@, "prude"@, "prune"@, "psalm"@, "pubic"@, "pudgy"@]
}

#[verifier::rlimit(100)]
fn push_words_24(words: &mut Vec<&'static str>)
    ensures
        final(words).deep_view().len() == old(words).deep_view().len() + 50,
        final(words).deep_view().subrange(0, old(words).deep_view().len() as int)
            == old(words).deep_view(),
        final(words).deep_view().subrange(
            old(words).deep_view().len() as int,
            final(words).deep_view().len() as int,
        ) == words_view_24(),
        forall|j: int|
            old(words).deep_view().len() <= j < final(words).deep_view().len()
                ==> (#[trigger] final(words).deep_view()[j]).len() == 5,
{
    words.push("plume");
    words.push("plump");
    words.push("plunk");
    words.push("plush");
    words.push("poesy");
    words.push("point");
    words.push("poise");
    words.push("poker");
    words.push("polar");
    words.push("polka");
    words.push("polyp");
    words.push("pooch");
    words.push("poppy");
    words.push("porch");
    words.push("poser");
    words.push("posit");
    words.push("posse");
    words.push("pouch");
    words.push("pound");
    words.push("pouty");
    words.push("power");
    words.push("prank");
    words.push("prawn");
    words.push("preen");
    words.push("press");
    words.push("price");
    words.push("prick");
    words.push("pride");
    words.push("pried");
    words.push("prime");
    words.push("primo");
    words.push("print");
    words.push("prior");
    words.push("prism");
    words.push("privy");
    words.push("prize");
    words.push("probe");
    words.push("prone");
    words.push("prong");
    words.push("proof");
    words.push("prose");
    words.push("proud");
    words.push("prove");
    words.push("prowl");
    words.push("proxy");
    words.push("prude");
    words.push("prune");
    words.push("psalm");
    words.push("pubic");
    words.push("pudgy");
    proof {
        reveal_strlit("plume");
        reveal_strlit("plump");
        reveal_strlit("plunk");
        reveal_strlit("plush");
        reveal_strlit("poesy");
        reveal_strlit("point");
        reveal_strlit("poise");
        reveal_strlit("poker");
        reveal_strlit("polar");
        reveal_strlit("polka");
        reveal_strlit("polyp");
        reveal_strlit("pooch");
        reveal_strlit("poppy");
        reveal_strlit("porch");
        reveal_strlit("poser");
        reveal_strlit("posit");
        reveal_strlit("posse");
        reveal_strlit("pouch");
        reveal_strlit("pound");
        reveal_strlit("pouty");
        reveal_strlit("power");
        reveal_strlit("prank");
        reveal_strlit("prawn");
        reveal_strlit("preen");
        reveal_strlit("press");
        reveal_strlit("price");
        reveal_strlit("prick");
        reveal_strlit("pride");
        reveal_strlit("pried");
        reveal_strlit("prime");
        reveal_strlit("primo");
        reveal_strlit("print");
        reveal_strlit("prior");
        reveal_strlit("prism");
        reveal_strlit("privy");
        reveal_strlit("prize");
        reveal_strlit("probe");
        reveal_strlit("prone");
        reveal_strlit("prong");
        reveal_strlit("proof");
        reveal_strlit("prose");
        reveal_strlit("proud");
        reveal_strlit("prove");
        reveal_strlit("prowl");
        reveal_strlit("proxy");
        reveal_strlit("prude");
        reveal_strlit("prune");
        reveal_strlit("psalm");
        reveal_strlit("pubic");
        reveal_strlit("pudgy");
        assert(words.deep_view().subrange(0, old(words).deep_view().len() as int)
            =~= old(words).deep_view());
        assert(words.deep_view().subrange(
            old(words).deep_view().len() as int,
            words.deep_view().len() as int,
        ) =~= words_view_24());
    }
}

spec fn words_view_25() -> Seq<Seq<char>> {
    seq!["puffy"@, "pulpy"@, "pulse"@, "punch"@, "pupal"@, "pupil"@, "puppy"@, "puree"@, "purer"@, "purge"@, "purse"@, "pushy"@, "putty"@, "pygmy"@, "quack"@, "quail"@, "quake"@, "qualm"@, "quark"@, "quart"@, "quash"@, "quasi"@, "queen"@, "queer"@, "quell"@, "query"@, "quest"@, "queue"@, "quick"@, "quiet"@, "quill"@, "quilt"@, "quirk"@, "quite"@, "quota"@, "quote"@, "quoth"@, "rabbi"@, "rabid"@, "racer"@, "radar"@, "radii"@, "radio"@, "rainy"@, "raise"@, "rajah"@, "rally"@, "ralph"@, "ramen"@, "ranch"@]
}

#[verifier::rlimit(100)]
fn push_words_25(words: &mut Vec<&'static str>)
    ensures
        final(words).deep_view().len() == old(words).deep_view().len() + 50,
        final(words).deep_view().subrange(0, old(words).deep_view().len() as int)
            == old(words).deep_view(),
        final(words).deep_view().subrange(
            old(words).deep_view().len() as int,
            final(words).deep_view().len() as int,
        ) == words_view_25(),
        forall|j: int|
            old(words).deep_view().len() <= j < final(words).deep_view().len()
                ==> (#[trigger] final(words).deep_view()[j]).len() == 5,
{
    words.push("puffy");
    words.push("pulpy");
    words.push("pulse");
    words.push("punch");
    words.push("pupal");
    words.push("pupil");
    words.push("puppy");
    words.push("puree");
    words.push("purer");
    words.push("purge");
    words.push("purse");
    words.push("pushy");
    words.push("putty");
    words.push("pygmy");
    words.push("quack");
    words.push("quail");
    words.push("quake");
    words.push("qualm");
    words.push("quark");
    words.push("quart");
    words.push("quash");
    words.push("quasi");
    words.push("queen");
    words.push("queer");
    words.push("quell");
    words.push("query");
    words.push("quest");
    words.push("queue");
    words.push("quick");
    words.push("quiet");
    words.push("quill");
    words.push("quilt");
    words.push("quirk");
    words.push("quite");
    words.push("quota");
    words.push("quote");
    words.push("quoth");
    words.push("rabbi");
    words.push("rabid");
    words.push("racer");
    words.push("radar");
    words.push("radii");
    words.push("radio");
    words.push("rainy");
    words.push("raise");
    words.push("rajah");
    words.push("rally");
    words.push("ralph");
    words.push("ramen");
    words.push("ranch");
    proof {
        reveal_strlit("puffy");
        reveal_strlit("pulpy");
        reveal_strlit("pulse");
        reveal_strlit("punch");
        reveal_strlit("pupal");
        reveal_strlit("pupil");
        reveal_strlit("puppy");
        reveal_strlit("puree");
        reveal_strlit("purer");
        reveal_strlit("purge");
        reveal_strlit("purse");
        reveal_strlit("pushy");
        reveal_strlit("putty");
        reveal_strlit("pygmy");
        reveal_strlit("quack");
        reveal_strlit("quail");
        reveal_strlit("quake");
        reveal_strlit("qualm");
        reveal_strlit("quark");
        reveal_strlit("quart");
        reveal_strlit("quash");
        reveal_strlit("quasi");
        reveal_strlit("queen");
        reveal_strlit("queer");
        reveal_strlit("quell");
        reveal_strlit("query");
        reveal_strlit("quest");
        reveal_strlit("queue");
        reveal_strlit("quick");
        reveal_strlit("quiet");
        reveal_strlit("quill");
        reveal_strlit("quilt");
        reveal_strlit("quirk");
        reveal_strlit("quite");
        reveal_strlit("quota");
        reveal_strlit("quote");
        reveal_strlit("quoth");
        reveal_strlit("rabbi");
        reveal_strlit("rabid");
        reveal_strlit("racer");
        reveal_strlit("radar");
        reveal_strlit("radii");
        reveal_strlit("radio");
        reveal_strlit("rainy");
        reveal_strlit("raise");
        reveal_strlit("rajah");
        reveal_strlit("rally");
        reveal_strlit("ralph");
        reveal_strlit("ramen");
        reveal_strlit("ranch");
        assert(words.deep_view().subrange(0, old(words).deep_view().len() as int)
            =~= old(words).deep_view());
        assert(words.deep_view().subrange(
            old(words).deep_view().len() as int,
            words.deep_view().len() as int,
        ) =~= words_view_25());
    }
}

spec fn words_view_26() -> Seq<Seq<char>> {
    seq!["randy"@, "range"@, "rapid"@, "rarer"@, "raspy"@, "ratio"@, "ratty"@, "raven"@, "rayon"@, "razor"@, "reach"@, "react"@, "ready"@, "realm"@, "rearm"@, "rebar"@, "rebel"@, "rebus"@, "rebut"@, "recap"@, "recur"@, "recut"@, "reedy"@, "refer"@, "refit"@, "regal"@, "rehab"@, "reign"@, "relax"@, "relay"@, "relic"@, "remit"@, "renal"@, "renew"@, "repay"@, "repel"@, "reply"@, "rerun"@, "reset"@, "resin"@, "retch"@, "retro"@, "retry"@, "reuse"@, "revel"@, "revue"@, "rhino"@, "rhyme"@, "rider"@, "ridge"@]
}

#[verifier::rlimit(100)]
fn push_words_26(words: &mut Vec<&'static str>)
    ensures
        final(words).deep_view().len() == old(words).deep_view().len() + 50,
        final(words).deep_view().subrange(0, old(words).deep_view().len() as int)
            == old(words).deep_view(),
        final(words).deep_view().subrange(
            old(words).deep_view().len() as int,
            final(words).deep_view().len() as int,
        ) == words_view_26(),
        forall|j: int|
            old(words).deep_view().len() <= j < final(words).deep_view().len()
                ==> (#[trigger] final(words).deep_view()[j]).len() == 5,
{
    words.push("randy");
    words.push("range");
    words.push("rapid");
    words.push("rarer");
    words.push("raspy");
    words.push("ratio");
    words.push("ratty");
    words.push("raven");
    words.push("rayon");
    words.push("razor");
    words.push("reach");
    words.push("react");
    words.push("ready");
    words.push("realm");
    words.push("rearm");
    words.push("rebar");
    words.push("rebel");
    words.push("rebus");
    words.push("rebut");
    words.push("recap");
    words.push("recur");
    words.push("recut");
    words.push("reedy");
    words.push("refer");
    words.push("refit");
    words.push("regal");
    words.push("rehab");
    words.push("reign");
    words.push("relax");
    words.push("relay");
    words.push("relic");
    words.push("remit");
    words.push("renal");
    words.push("renew");
    words.push("repay");
    words.push("repel");
    words.push("reply");
    words.push("rerun");
    words.push("reset");
    words.push("resin");
    words.push("retch");
    words.push("retro");
    words.push("retry");
    words.push("reuse");
    words.push("revel");
    words.push("revue");
    words.push("rhino");
    words.push("rhyme");
    words.push("rider");
    words.push("ridge");
    proof {
        reveal_strlit("randy");
        reveal_strlit("range");
        reveal_strlit("rapid");
        reveal_strlit("rarer");
        reveal_strlit("raspy");
        reveal_strlit("ratio");
        reveal_strlit("ratty");
        reveal_strlit("raven");
        reveal_strlit("rayon");
        reveal_strlit("razor");
        reveal_strlit("reach");
        reveal_strlit("react");
        reveal_strlit("ready");
        reveal_strlit("realm");
        reveal_strlit("rearm");
        reveal_strlit("rebar");
        reveal_strlit("rebel");
        reveal_strlit("rebus");
        reveal_strlit("rebut");
        reveal_strlit("recap");
        reveal_strlit("recur");
        reveal_strlit("recut");
        reveal_strlit("reedy");
        reveal_strlit("refer");
        reveal_strlit("refit");
        reveal_strlit("regal");
        reveal_strlit("rehab");
        reveal_strlit("reign");
        reveal_strlit("relax");
        reveal_strlit("relay");
        reveal_strlit("relic");
        reveal_strlit("remit");
        reveal_strlit("renal");
        reveal_strlit("renew");
        reveal_strlit("repay");
        reveal_strlit("repel");
        reveal_strlit("reply");
        reveal_strlit("rerun");
        reveal_strlit("reset");
        reveal_strlit("resin");
        reveal_strlit("retch");
        reveal_strlit("retro");
        reveal_strlit("retry");
        reveal_strlit("reuse");
        reveal_strlit("revel");
        reveal_strlit("revue");
        reveal_strlit("rhino");
        reveal_strlit("rhyme");
        reveal_strlit("rider");
        reveal_strlit("ridge");
        assert(words.deep_view().subrange(0, old(words).deep_view().len() as int)
            =~= old(words).deep_view());
        assert(words.deep_view().subrange(
            old(words).deep_view().len() as int,
            words.deep_view().len() as int,
        ) =~= words_view_26());
    }
}

spec fn words_view_27() -> Seq<Seq<char>> {
    seq!["rifle"@, "right"@, "rigid"@, "rigor"@, "rinse"@, "ripen"@, "riper"@, "risen"@, "riser"@, "risky"@, "rival"@, "river"@, "rivet"@, "roach"@, "roast"@, "robin"@, "robot"@, "rocky"@, "rodeo"@, "roger"@, "rogue"@, "roomy"@, "roost"@, "rotor"@, "rouge"@, "rough"@, "round"@, "rouse"@, "route"@, "rover"@, "rowdy"@, "rower"@, "royal"@, "ruddy"@, "ruder"@, "rugby"@, "ruler"@, "rumba"@, "rumor"@, "rupee"@, "rural"@, "rusty"@, "sadly"@, "safer"@, "salad"@, "sally"@, "salon"@, "salsa"@, "salty"@, "salve"@]
}

#[verifier::rlimit(100)]
fn push_words_27(words: &mut Vec<&'static str>)
    ensures
        final(words).deep_view().len() == old(words).deep_view().len() + 50,
        final(words).deep_view().subrange(0, old(words).deep_view().len() as int)
            == old(words).deep_view(),
        final(words).deep_view().subrange(
            old(words).deep_view().len() as int,
            final(words).deep_view().len() as int,
        ) == words_view_27(),
        forall|j: int|
            old(words).deep_view().len() <= j < final(words).deep_view().len()
                ==> (#[trigger] final(words).deep_view()[j]).len() == 5,
{
    words.push("rifle");
    words.push("right");
    words.push("rigid");
    words.push("rigor");
    words.push("rinse");
    words.push("ripen");
    words.push("riper");
    words.push("risen");
    words.push("riser");
    words.push("risky");
    words.push("rival");
    words.push("river");
    words.push("rivet");
    words.push("roach");
    words.push("roast");
    words.push("robin");
    words.push("robot");
    words.push("rocky");
    words.push("rodeo");
    words.push("roger");
    words.push("rogue");
    words.push("roomy");
    words.push("roost");
    words.push("rotor");
    words.push("rouge");
    words.push("rough");
    words.push("round");
    words.push("rouse");
    words.push("route");
    words.push("rover");
    words.push("rowdy");
    words.push("rower");
    words.push("royal");
    words.push("ruddy");
    words.push("ruder");
    words.push("rugby");
    words.push("ruler");
    words.push("rumba");
    words.push("rumor");
    words.push("rupee");
    words.push("rural");
    words.push("rusty");
    words.push("sadly");
    words.push("safer");
    words.push("salad");
    words.push("sally");
    words.push("salon");
    words.push("salsa");
    words.push("salty");
    words.push("salve");
    proof {
        reveal_strlit("rifle");
        reveal_strlit("right");
        reveal_strlit("rigid");
        reveal_strlit("rigor");
        reveal_strlit("rinse");
        reveal_strlit("ripen");
        reveal_strlit("riper");
        reveal_strlit("risen");
        reveal_strlit("riser");
        reveal_strlit("risky");
        reveal_strlit("rival");
        reveal_strlit("river");
        reveal_strlit("rivet");
        reveal_strlit("roach");
        reveal_strlit("roast");
        reveal_strlit("robin");
        reveal_strlit("robot");
        reveal_strlit("rocky");
        reveal_strlit("rodeo");
        reveal_strlit("roger");
        reveal_strlit("rogue");
        reveal_strlit("roomy");
        reveal_strlit("roost");
        reveal_strlit("rotor");
        reveal_strlit("rouge");
        reveal_strlit("rough");
        reveal_strlit("round");
        reveal_strlit("rouse");
        reveal_strlit("route");
        reveal_strlit("rover");
        reveal_strlit("rowdy");
        reveal_strlit("rower");
        reveal_strlit("royal");
        reveal_strlit("ruddy");
        reveal_strlit("ruder");
        reveal_strlit("rugby");
        reveal_strlit("ruler");
        reveal_strlit("rumba");
        reveal_strlit("rumor");
        reveal_strlit("rupee");
        reveal_strlit("rural");
        reveal_strlit("rusty");
        reveal_strlit("sadly");
        reveal_strlit("safer");
        reveal_strlit("salad");
        reveal_strlit("sally");
        reveal_strlit("salon");
        reveal_strlit("salsa");
        reveal_strlit("salty");
        reveal_strlit("salve");
        assert(words.deep_view().subrange(0, old(words).deep_view().len() as int)
            =~= old(words).deep_view());
        assert(words.deep_view().subrange(
            old(words).deep_view().len() as int,
            words.deep_view().len() as int,
        ) =~= words_view_27());
    }
}

spec fn words_view_28() -> Seq<Seq<char>> {
    seq!["salvo"@, "sandy"@, "saner"@, "sappy"@, "sassy"@, "satin"@, "satyr"@, "sauce"@, "saucy"@, "sauna"@, "saute"@, "savor"@, "savoy"@, "savvy"@, "scald"@, "scale"@, "scalp"@, "scaly"@, "scamp"@, "scant"@, "scare"@, "scarf"@, "scary"@, "scene"@, "scent"@, "scion"@, "scoff"@, "scold"@, "scone"@, "scoop"@, "scope"@, "score"@, "scorn"@, "scour"@, "scout"@, "scowl"@, "scram"@, "scrap"@, "scree"@, "screw"@, "scrub"@, "scrum"@, "scuba"@, "sedan"@, "seedy"@, "segue"@, "seize"@, "semen"@, "sense"@, "sepia"@]
}

#[verifier::rlimit(100)]
fn push_words_28(words: &mut Vec<&'static str>)
    ensures
        final(words).deep_view().len() == old(words).deep_view().len() + 50,
        final(words).deep_view().subrange(0, old(words).deep_view().len() as int)
            == old(words).deep_view(),
        final(words).deep_view().subrange(
            old(words).deep_view().len() as int,
            final(words).deep_view().len() as int,
        ) == words_view_28(),
        forall|j: int|
            old(words).deep_view().len() <= j < final(words).deep_view().len()
                ==> (#[trigger] final(words).deep_view()[j]).len() == 5,
{
    words.push("salvo");
    words.push("sandy");
    words.push("saner");
    words.push("sappy");
    words.push("sassy");
    words.push("satin");
    words.push("satyr");
    words.push("sauce");
    words.push("saucy");
    words.push("sauna");
    words.push("saute");
    words.push("savor");
    words.push("savoy");
    words.push("savvy");
    words.push("scald");
    words.push("scale");
    words.push("scalp");
    words.push("scaly");
    words.push("scamp");
    words.push("scant");
    words.push("scare");
    words.push("scarf");
    words.push("scary");
    words.push("scene");
    words.push("scent");
    words.push("scion");
    words.push("scoff");
    words.push("scold");
    words.push("scone");
    words.push("scoop");
    words.push("scope");
    words.push("score");
    words.push("scorn");
    words.push("scour");
    words.push("scout");
    words.push("scowl");
    words.push("scram");
    words.push("scrap");
    words.push("scree");
    words.push("screw");
    words.push("scrub");
    words.push("scrum");
    words.push("scuba");
    words.push("sedan");
    words.push("seedy");
    words.push("segue");
    words.push("seize");
    words.push("semen");
    words.push("sense");
    words.push("sepia");
    proof {
        reveal_strlit("salvo");
        reveal_strlit("sandy");
        reveal_strlit("saner");
        reveal_strlit("sappy");
        reveal_strlit("sassy");
        reveal_strlit("satin");
        reveal_strlit("satyr");
        reveal_strlit("sauce");
        reveal_strlit("saucy");
        reveal_strlit("sauna");
        reveal_strlit("saute");
        reveal_strlit("savor");
        reveal_strlit("savoy");
        reveal_strlit("savvy");
        reveal_strlit("scald");
        reveal_strlit("scale");
        reveal_strlit("scalp");
        reveal_strlit("scaly");
        reveal_strlit("scamp");
        reveal_strlit("scant");
        reveal_strlit("scare");
        reveal_strlit("scarf");
        reveal_strlit("scary");
        reveal_strlit("scene");
        reveal_strlit("scent");
        reveal_strlit("scion");
        reveal_strlit("scoff");
        reveal_strlit("scold");
        reveal_strlit("scone");
        reveal_strlit("scoop");
        reveal_strlit("scope");
        reveal_strlit("score");
        reveal_strlit("scorn");
        reveal_strlit("scour");
        reveal_strlit("scout");
        reveal_strlit("scowl");
        reveal_strlit("scram");
        reveal_strlit("scrap");
        reveal_strlit("scree");
        reveal_strlit("screw");
        reveal_strlit("scrub");
        reveal_strlit("scrum");
        reveal_strlit("scuba");
        reveal_strlit("sedan");
        reveal_strlit("seedy");
        reveal_strlit("segue");
        reveal_strlit("seize");
        reveal_strlit("semen");
        reveal_strlit("sense");
        reveal_strlit("sepia");
        assert(words.deep_view().subrange(0, old(words).deep_view().len() as int)
            =~= old(words).deep_view());
        assert(words.deep_view().subrange(
            old(words).deep_view().len() as int,
            words.deep_view().len() as int,
        ) =~= words_view_28());
    }
}

spec fn words_view_29() -> Seq<Seq<char>> {
    seq!["serif"@, "serum"@, "serve"@, "setup"@, "seven"@, "sever"@, "sewer"@, "shack"@, "shade"@, "shady"@, "shaft"@, "shake"@, "shaky"@, "shale"@, "shall"@, "shalt"@, "shame"@, "shank"@, "shape"@, "shard"@, "share"@, "shark"@, "sharp"@, "shave"@, "shawl"@, "shear"@, "sheen"@, "sheep"@, "sheer"@, "sheet"@, "sheik"@, "shelf"@, "shell"@, "shied"@, "shift"@, "shine"@, "shiny"@, "shire"@, "shirk"@, "shirt"@, "shoal"@, "shock"@, "shone"@, "shook"@, "shoot"@, "shore"@, "shorn"@, "short"@, "shout"@, "shove"@]
}

#[verifier::rlimit(100)]
fn push_words_29(words: &mut Vec<&'static str>)
    ensures
        final(words).deep_view().len() == old(words).deep_view().len() + 50,
        final(words).deep_view().subrange(0, old(words).deep_view().len() as int)
            == old(words).deep_view(),
        final(words).deep_view().subrange(
            old(words).deep_view().len() as int,
            final(words).deep_view().len() as int,
        ) == words_view_29(),
        forall|j: int|
            old(words).deep_view().len() <= j < final(words).deep_view().len()
                ==> (#[trigger] final(words).deep_view()[j]).len() == 5,
{
    words.push("serif");
    words.push("serum");
    words.push("serve");
    words.push("setup");
    words.push("seven");
    words.push("sever");
    words.push("sewer");
    words.push("shack");
    words.push("shade");
    words.push("shady");
    words.push("shaft");
    words.push("shake");
    words.push("shaky");
    words.push("shale");
    words.push("shall");
    words.push("shalt");
    words.push("shame");
    words.push("shank");
    words.push("shape");
    words.push("shard");
    words.push("share");
    words.push("shark");
    words.push("sharp");
    words.push("shave");
    words.push("shawl");
    words.push("shear");
    words.push("sheen");
    words.push("sheep");
    words.push("sheer");
    words.push("sheet");
    words.push("sheik");
    words.push("shelf");
    words.push("shell");
    words.push("shied");
    words.push("shift");
    words.push("shine");
    words.push("shiny");
    words.push("shire");
    words.push("shirk");
    words.push("shirt");
    words.push("shoal");
    words.push("shock");
    words.push("shone");
    words.push("shook");
    words.push("shoot");
    words.push("shore");
    words.push("shorn");
    words.push("short");
    words.push("shout");
    words.push("shove");
    proof {
        reveal_strlit("serif");
        reveal_strlit("serum");
        reveal_strlit("serve");
        reveal_strlit("setup");
        reveal_strlit("seven");
        reveal_strlit("sever");
        reveal_strlit("sewer");
        reveal_strlit("shack");
        reveal_strlit("shade");
        reveal_strlit("shady");
        reveal_strlit("shaft");
        reveal_strlit("shake");
        reveal_strlit("shaky");
        reveal_strlit("shale");
        reveal_strlit("shall");
        reveal_strlit("shalt");
        reveal_strlit("shame");
        reveal_strlit("shank");
        reveal_strlit("shape");
        reveal_strlit("shard");
        reveal_strlit("share");
        reveal_strlit("shark");
        reveal_strlit("sharp");
        reveal_strlit("shave");
        reveal_strlit("shawl");
        reveal_strlit("shear");
        reveal_strlit("sheen");
        reveal_strlit("sheep");
        reveal_strlit("sheer");
        reveal_strlit("sheet");
        reveal_strlit("sheik");
        reveal_strlit("shelf");
        reveal_strlit("shell");
        reveal_strlit("shied");
        reveal_strlit("shift");
        reveal_strlit("shine");
        reveal_strlit("shiny");
        reveal_strlit("shire");
        reveal_strlit("shirk");
        reveal_strlit("shirt");
        reveal_strlit("shoal");
        reveal_strlit("shock");
        reveal_strlit("shone");
        reveal_strlit("shook");
        reveal_strlit("shoot");
        reveal_strlit("shore");
        reveal_strlit("shorn");
        reveal_strlit("short");
        reveal_strlit("shout");
        reveal_strlit("shove");
        assert(words.deep_view().subrange(0, old(words).deep_view().len() as int)
            =~= old(words).deep_view());
        assert(words.deep_view().subrange(
            old(words).deep_view().len() as int,
            words.deep_view().len() as int,
        ) =~= words_view_29());
    }
}

spec fn words_view_30() -> Seq<Seq<char>> {
    seq!["shown"@, "showy"@, "shrew"@, "shrub"@, "shrug"@, "shuck"@, "shunt"@, "shush"@, "shyly"@, "siege"@, "sieve"@, "sight"@, "sigma"@, "silky"@, "silly"@, "since"@, "sinew"@, "singe"@, "siren"@, "sissy"@, "sixth"@, "sixty"@, "skate"@, "skier"@, "skiff"@, "skill"@, "skimp"@, "skirt"@, "skulk"@, "skull"@, "skunk"@, "slack"@, "slain"@, "slang"@, "slant"@, "slash"@, "slate"@, "slave"@, "sleek"@, "sleep"@, "sleet"@, "slept"@, "slice"@, "slick"@, "slide"@, "slime"@, "slimy"@, "sling"@, "slink"@, "sloop"@]
}

#[verifier::rlimit(100)]
fn push_words_30(words: &mut Vec<&'static str>)
    ensures
        final(words).deep_view().len() == old(words).deep_view().len() + 50,
        final(words).deep_view().subrange(0, old(words).deep_view().len() as int)
            == old(words).deep_view(),
        final(words).deep_view().subrange(
            old(words).deep_view().len() as int,
            final(words).deep_view().len() as int,
        ) == words_view_30(),
        forall|j: int|
            old(words).deep_view().len() <= j < final(words).deep_view().len()
                ==> (#[trigger] final(words).deep_view()[j]).len() == 5,
{
    words.push("shown");
    words.push("showy");
    words.push("shrew");
    words.push("shrub");
    words.push("shrug");
    words.push("shuck");
    words.push("shunt");
    words.push("shush");
    words.push("shyly");
    words.push("siege");
    words.push("sieve");
    words.push("sight");
    words.push("sigma");
    words.push("silky");
    words.push("silly");
    words.push("since");
    words.push("sinew");
    words.push("singe");
    words.push("siren");
    words.push("sissy");
    words.push("sixth");
    words.push("sixty");
    words.push("skate");
    words.push("skier");
    words.push("skiff");
    words.push("skill");
    words.push("skimp");
    words.push("skirt");
    words.push("skulk");
    words.push("skull");
    words.push("skunk");
    words.push("slack");
    words.push("slain");
    words.push("slang");
    words.push("slant");
    words.push("slash");
    words.push("slate");
    words.push("slave");
    words.push("sleek");
    words.push("sleep");
    words.push("sleet");
    words.push("slept");
    words.push("slice");
    words.push("slick");
    words.push("slide");
    words.push("slime");
    words.push("slimy");
    words.push("sling");
    words.push("slink");
    words.push("sloop");
    proof {
        reveal_strlit("shown");
        reveal_strlit("showy");
        reveal_strlit("shrew");
        reveal_strlit("shrub");
        reveal_strlit("shrug");
        reveal_strlit("shuck");
        reveal_strlit("shunt");
        reveal_strlit("shush");
        reveal_strlit("shyly");
        reveal_strlit("siege");
        reveal_strlit("sieve");
        reveal_strlit("sight");
        reveal_strlit("sigma");
        reveal_strlit("silky");
        reveal_strlit("silly");
        reveal_strlit("since");
        reveal_strlit("sinew");
        reveal_strlit("singe");
        reveal_strlit("siren");
        reveal_strlit("sissy");
        reveal_strlit("sixth");
        reveal_strlit("sixty");
        reveal_strlit("skate");
        reveal_strlit("skier");
        reveal_strlit("skiff");
        reveal_strlit("skill");
        reveal_strlit("skimp");
        reveal_strlit("skirt");
        reveal_strlit("skulk");
        reveal_strlit("skull");
        reveal_strlit("skunk");
        reveal_strlit("slack");
        reveal_strlit("slain");
        reveal_strlit("slang");
        reveal_strlit("slant");
        reveal_strlit("slash");
        reveal_strlit("slate");
        reveal_strlit("slave");
        reveal_strlit("sleek");
        reveal_strlit("sleep");
        reveal_strlit("sleet");
        reveal_strlit("slept");
        reveal_strlit("slice");
        reveal_strlit("slick");
        reveal_strlit("slide");
        reveal_strlit("slime");
        reveal_strlit("slimy");
        reveal_strlit("sling");
        reveal_strlit("slink");
        reveal_strlit("sloop");
        assert(words.deep_view().subrange(0, old(words).deep_view().len() as int)
            =~= old(words).deep_view());
        assert(words.deep_view().subrange(
            old(words).deep_view().len() as int,
            words.deep_view().len() as int,
        ) =~= words_view_30());
    }
}

spec fn words_view_31() -> Seq<Seq<char>> {
    seq!["slope"@, "slosh"@, "sloth"@, "slump"@, "slung"@, "slunk"@, "slurp"@, "slush"@, "slyly"@, "smack"@, "small"@, "smart"@, "smash"@, "smear"@, "smell"@, "smelt"@, "smile"@, "smirk"@, "smite"@, "smith"@, "smock"@, "smoke"@, "smoky"@, "smote"@, "snack"@, "snail"@, "snake"@, "snaky"@, "snare"@, "snarl"@, "sneak"@, "sneer"@, "snide"@, "sniff"@, "snipe"@, "snoop"@, "snore"@, "snort"@, "snout"@, "snowy"@, "snuck"@, "snuff"@, "soapy"@, "sober"@, "soggy"@, "solar"@, "solid"@, "solve"@, "sonar"@, "sonic"@]
}

#[verifier::rlimit(100)]
fn push_words_31(words: &mut Vec<&'static str>)
    ensures
        final(words).deep_view().len() == old(words).deep_view().len() + 50,
        final(words).deep_view().subrange(0, old(words).deep_view().len() as int)
            == old(words).deep_view(),
        final(words).deep_view().subrange(
            old(words).deep_view().len() as int,
            final(words).deep_view().len() as int,
        ) == words_view_31(),
        forall|j: int|
            old(words).deep_view().len() <= j < final(words).deep_view().len()
                ==> (#[trigger] final(words).deep_view()[j]).len() == 5,
{
    words.push("slope");
    words.push("slosh");
    words.push("sloth");
    words.push("slump");
    words.push("slung");
    words.push("slunk");
    words.push("slurp");
    words.push("slush");
    words.push("slyly");
    words.push("smack");
    words.push("small");
    words.push("smart");
    words.push("smash");
    words.push("smear");
    words.push("smell");
    words.push("smelt");
    words.push("smile");
    words.push("smirk");
    words.push("smite");
    words.push("smith");
    words.push("smock");
    words.push("smoke");
    words.push("smoky");
    words.push("smote");
    words.push("snack");
    words.push("snail");
    words.push("snake");
    words.push("snaky");
    words.push("snare");
    words.push("snarl");
    words.push("sneak");
    words.push("sneer");
    words.push("snide");
    words.push("sniff");
    words.push("snipe");
    words.push("snoop");
    words.push("snore");
    words.push("snort");
    words.push("snout");
    words.push("snowy");
    words.push("snuck");
    words.push("snuff");
    words.push("soapy");
    words.push("sober");
    words.push("soggy");
    words.push("solar");
    words.push("solid");
    words.push("solve");
    words.push("sonar");
    words.push("sonic");
    proof {
        reveal_strlit("slope");
        reveal_strlit("slosh");
        reveal_strlit("sloth");
        reveal_strlit("slump");
        reveal_strlit("slung");
        reveal_strlit("slunk");
        reveal_strlit("slurp");
        reveal_strlit("slush");
        reveal_strlit("slyly");
        reveal_strlit("smack");
        reveal_strlit("small");
        reveal_strlit("smart");
        reveal_strlit("smash");
        reveal_strlit("smear");
        reveal_strlit("smell");
        reveal_strlit("smelt");
        reveal_strlit("smile");
        reveal_strlit("smirk");
        reveal_strlit("smite");
        reveal_strlit("smith");
        reveal_strlit("smock");
        reveal_strlit("smoke");
        reveal_strlit("smoky");
        reveal_strlit("smote");
        reveal_strlit("snack");
        reveal_strlit("snail");
        reveal_strlit("snake");
        reveal_strlit("snaky");
        reveal_strlit("snare");
        reveal_strlit("snarl");
        reveal_strlit("sneak");
        reveal_strlit("sneer");
        reveal_strlit("snide");
        reveal_strlit("sniff");
        reveal_strlit("snipe");
        reveal_strlit("snoop");
        reveal_strlit("snore");
        reveal_strlit("snort");
        reveal_strlit("snout");
        reveal_strlit("snowy");
        reveal_strlit("snuck");
        reveal_strlit("snuff");
        reveal_strlit("soapy");
        reveal_strlit("sober");
        reveal_strlit("soggy");
        reveal_strlit("solar");
        reveal_strlit("solid");
        reveal_strlit("solve");
        reveal_strlit("sonar");
        reveal_strlit("sonic");
        assert(words.deep_view().subrange(0, old(words).deep_view().len() as int)
            =~= old(words).deep_view());
        assert(words.deep_view().subrange(
            old(words).deep_view().len() as int,
            words.deep_view().len() as int,
        ) =~= words_view_31());
    }
}

spec fn words_view_32() -> Seq<Seq<char>> {
    seq!["sooth"@, "sooty"@, "sorry"@, "sound"@, "south"@, "sower"@, "space"@, "spade"@, "spank"@, "spare"@, "spark"@, "spasm"@, "spawn"@, "speak"@, "spear"@, "speck"@, "speed"@, "spell"@, "spelt"@, "spend"@, "spent"@, "sperm"@, "spice"@, "spicy"@, "spied"@, "spiel"@, "spike"@, "spiky"@, "spill"@, "spilt"@, "spine"@, "spiny"@, "spire"@, "spite"@, "splat"@, "split"@, "spoil"@, "spoke"@, "spoof"@, "spook"@, "spool"@, "spoon"@, "spore"@, "sport"@, "spout"@, "spray"@, "spree"@, "sprig"@, "spunk"@, "spurn"@]
}

#[verifier::rlimit(100)]
fn push_words_32(words: &mut Vec<&'static str>)
    ensures
        final(words).deep_view().len() == old(words).deep_view().len() + 50,
        final(words).deep_view().subrange(0, old(words).deep_view().len() as int)
            == old(words).deep_view(),
        final(words).deep_view().subrange(
            old(words).deep_view().len() as int,
            final(words).deep_view().len() as int,
        ) == words_view_32(),
        forall|j: int|
            old(words).deep_view().len() <= j < final(words).deep_view().len()
                ==> (#[trigger] final(words).deep_view()[j]).len() == 5,
{
    words.push("sooth");
    words.push("sooty");
    words.push("sorry");
    words.push("sound");
    words.push("south");
    words.push("sower");
    words.push("space");
    words.push("spade");
    words.push("spank");
    words.push("spare");
    words.push("spark");
    words.push("spasm");
    words.push("spawn");
    words.push("speak");
    words.push("spear");
    words.push("speck");
    words.push("speed");
    words.push("spell");
    words.push("spelt");
    words.push("spend");
    words.push("spent");
    words.push("sperm");
    words.push("spice");
    words.push("spicy");
    words.push("spied");
    words.push("spiel");
    words.push("spike");
    words.push("spiky");
    words.push("spill");
    words.push("spilt");
    words.push("spine");
    words.push("spiny");
    words.push("spire");
    words.push("spite");
    words.push("splat");
    words.push("split");
    words.push("spoil");
    words.push("spoke");
    words.push("spoof");
    words.push("spook");
    words.push("spool");
    words.push("spoon");
    words.push("spore");
    words.push("sport");
    words.push("spout");
    words.push("spray");
    words.push("spree");
    words.push("sprig");
    words.push("spunk");
    words.push("spurn");
    proof {
        reveal_strlit("sooth");
        reveal_strlit("sooty");
        reveal_strlit("sorry");
        reveal_strlit("sound");
        reveal_strlit("south");
        reveal_strlit("sower");
        reveal_strlit("space");
        reveal_strlit("spade");
        reveal_strlit("spank");
        reveal_strlit("spare");
        reveal_strlit("spark");
        reveal_strlit("spasm");
        reveal_strlit("spawn");
        reveal_strlit("speak");
        reveal_strlit("spear");
        reveal_strlit("speck");
        reveal_strlit("speed");
        reveal_strlit("spell");
        reveal_strlit("spelt");
        reveal_strlit("spend");
        reveal_strlit("spent");
        reveal_strlit("sperm");
        reveal_strlit("spice");
        reveal_strlit("spicy");
        reveal_strlit("spied");
        reveal_strlit("spiel");
        reveal_strlit("spike");
        reveal_strlit("spiky");
        reveal_strlit("spill");
        reveal_strlit("spilt");
        reveal_strlit("spine");
        reveal_strlit("spiny");
        reveal_strlit("spire");
        reveal_strlit("spite");
        reveal_strlit("splat");
        reveal_strlit("split");
        reveal_strlit("spoil");
        reveal_strlit("spoke");
        reveal_strlit("spoof");
        reveal_strlit("spook");
        reveal_strlit("spool");
        reveal_strlit("spoon");
        reveal_strlit("spore");
        reveal_strlit("sport");
        reveal_strlit("spout");
        reveal_strlit("spray");
        reveal_strlit("spree");
        reveal_strlit("sprig");
        reveal_strlit("spunk");
        reveal_strlit("spurn");
        assert(words.deep_view().subrange(0, old(words).deep_view().len() as int)
            =~= old(words).deep_view());
        assert(words.deep_view().subrange(
            old(words).deep_view().len() as int,
            words.deep_view().len() as int,
        ) =~= words_view_32());
    }
}

spec fn words_view_33() -> Seq<Seq<char>> {
    seq!["spurt"@, "squad"@, "squat"@, "squib"@, "stack"@, "staff"@, "stage"@, "staid"@, "stain"@, "stair"@, "stake"@, "stale"@, "stalk"@, "stall"@, "stamp"@, "stand"@, "stank"@, "stare"@, "stark"@, "start"@, "stash"@, "state"@, "stave"@, "stead"@, "steak"@, "steal"@, "steam"@, "steed"@, "steel"@, "steep"@, "steer"@, "stein"@, "stern"@, "stick"@, "stiff"@, "still"@, "stilt"@, "sting"@, "stink"@, "stint"@, "stock"@, "stoic"@, "stoke"@, "stole"@, "stomp"@, "stone"@, "stony"@, "stood"@, "stool"@, "stoop"@]
}

#[verifier::rlimit(100)]
fn push_words_33(words: &mut Vec<&'static str>)
    ensures
        final(words).deep_view().len() == old(words).deep_view().len() + 50,
        final(words).deep_view().subrange(0, old(words).deep_view().len() as int)
            == old(words).deep_view(),
        final(words).deep_view().subrange(
            old(words).deep_view().len() as int,
            final(words).deep_view().len() as int,
        ) == words_view_33(),
        forall|j: int|
            old(words).deep_view().len() <= j < final(words).deep_view().len()
                ==> (#[trigger] final(words).deep_view()[j]).len() == 5,
{
    words.push("spurt");
    words.push("squad");
    words.push("squat");
    words.push("squib");
    words.push("stack");
    words.push("staff");
    words.push("stage");
    words.push("staid");
    words.push("stain");
    words.push("stair");
    words.push("stake");
    words.push("stale");
    words.push("stalk");
    words.push("stall");
    words.push("stamp");
    words.push("stand");
    words.push("stank");
    words.push("stare");
    words.push("stark");
    words.push("start");
    words.push("stash");
    words.push("state");
    words.push("stave");
    words.push("stead");
    words.push("steak");
    words.push("steal");
    words.push("steam");
    words.push("steed");
    words.push("steel");
    words.push("steep");
    words.push("steer");
    words.push("stein");
    words.push("stern");
    words.push("stick");
    words.push("stiff");
    words.push("still");
    words.push("stilt");
    words.push("sting");
    words.push("stink");
    words.push("stint");
    words.push("stock");
    words.push("stoic");
    words.push("stoke");
    words.push("stole");
    words.push("stomp");
    words.push("stone");
    words.push("stony");
    words.push("stood");
    words.push("stool");
    words.push("stoop");
    proof {
        reveal_strlit("spurt");
        reveal_strlit("squad");
        reveal_strlit("squat");
        reveal_strlit("squib");
        reveal_strlit("stack");
        reveal_strlit("staff");
        reveal_strlit("stage");
        reveal_strlit("staid");
        reveal_strlit("stain");
        reveal_strlit("stair");
        reveal_strlit("stake");
        reveal_strlit("stale");
        reveal_strlit("stalk");
        reveal_strlit("stall");
        reveal_strlit("stamp");
        reveal_strlit("stand");
        reveal_strlit("stank");
        reveal_strlit("stare");
        reveal_strlit("stark");
        reveal_strlit("start");
        reveal_strlit("stash");
        reveal_strlit("state");
        reveal_strlit("stave");
        reveal_strlit("stead");
        reveal_strlit("steak");
        reveal_strlit("steal");
        reveal_strlit("steam");
        reveal_strlit("steed");
        reveal_strlit("steel");
        reveal_strlit("steep");
        reveal_strlit("steer");
        reveal_strlit("stein");
        reveal_strlit("stern");
        reveal_strlit("stick");
        reveal_strlit("stiff");
        reveal_strlit("still");
        reveal_strlit("stilt");
        reveal_strlit("sting");
        reveal_strlit("stink");
        reveal_strlit("stint");
        reveal_strlit("stock");
        reveal_strlit("stoic");
        reveal_strlit("stoke");
        reveal_strlit("stole");
        reveal_strlit("stomp");
        reveal_strlit("stone");
        reveal_strlit("stony");
        reveal_strlit("stood");
        reveal_strlit("stool");
        reveal_strlit("stoop");
        assert(words.deep_view().subrange(0, old(words).deep_view().len() as int)
            =~= old(words).deep_view());
        assert(words.deep_view().subrange(
            old(words).deep_view().len() as int,
            words.deep_view().len() as int,
        ) =~= words_view_33());
    }
}

spec fn words_view_34() -> Seq<Seq<char>> {
    seq!["store"@, "stork"@, "storm"@, "story"@, "stout"@, "stove"@, "strap"@, "straw"@, "stray"@, "strip"@, "strut"@, "stuck"@, "study"@, "stuff"@, "stump"@, "stung"@, "stunk"@, "stunt"@, "style"@, "suave"@, "sugar"@, "suing"@, "suite"@, "sulky"@, "sully"@, "sumac"@, "sunny"@, "super"@, "surer"@, "surge"@, "surly"@, "sushi"@, "swami"@, "swamp"@, "swarm"@, "swash"@, "swath"@, "swear"@, "sweat"@, "sweep"@, "sweet"@, "swell"@, "swept"@, "swift"@, "swill"@, "swine"@, "swing"@, "swirl"@, "swish"@, "swoon"@]
}

#[verifier::rlimit(100)]
fn push_words_34(words: &mut Vec<&'static str>)
    ensures
        final(words).deep_view().len() == old(words).deep_view().len() + 50,
        final(words).deep_view().subrange(0, old(words).deep_view().len() as int)
            == old(words).deep_view(),
        final(words).deep_view().subrange(
            old(words).deep_view().len() as int,
            final(words).deep_view().len() as int,
        ) == words_view_34(),
        forall|j: int|
            old(words).deep_view().len() <= j < final(words).deep_view().len()
                ==> (#[trigger] final(words).deep_view()[j]).len() == 5,
{
    words.push("store");
    words.push("stork");
    words.push("storm");
    words.push("story");
    words.push("stout");
    words.push("stove");
    words.push("strap");
    words.push("straw");
    words.push("stray");
    words.push("strip");
    words.push("strut");
    words.push("stuck");
    words.push("study");
    words.push("stuff");
    words.push("stump");
    words.push("stung");
    words.push("stunk");
    words.push("stunt");
    words.push("style");
    words.push("suave");
    words.push("sugar");
    words.push("suing");
    words.push("suite");
    words.push("sulky");
    words.push("sully");
    words.push("sumac");
    words.push("sunny");
    words.push("super");
    words.push("surer");
    words.push("surge");
    words.push("surly");
    words.push("sushi");
    words.push("swami");
    words.push("swamp");
    words.push("swarm");
    words.push("swash");
    words.push("swath");
    words.push("swear");
    words.push("sweat");
    words.push("sweep");
    words.push("sweet");
    words.push("swell");
    words.push("swept");
    words.push("swift");
    words.push("swill");
    words.push("swine");
    words.push("swing");
    words.push("swirl");
    words.push("swish");
    words.push("swoon");
    proof {
        reveal_strlit("store");
        reveal_strlit("stork");
        reveal_strlit("storm");
        reveal_strlit("story");
        reveal_strlit("stout");
        reveal_strlit("stove");
        reveal_strlit("strap");
        reveal_strlit("straw");
        reveal_strlit("stray");
        reveal_strlit("strip");
        reveal_strlit("strut");
        reveal_strlit("stuck");
        reveal_strlit("study");
        reveal_strlit("stuff");
        reveal_strlit("stump");
        reveal_strlit("stung");
        reveal_strlit("stunk");
        reveal_strlit("stunt");
        reveal_strlit("style");
        reveal_strlit("suave");
        reveal_strlit("sugar");
        reveal_strlit("suing");
        reveal_strlit("suite");
        reveal_strlit("sulky");
        reveal_strlit("sully");
        reveal_strlit("sumac");
        reveal_strlit("sunny");
        reveal_strlit("super");
        reveal_strlit("surer");
        reveal_strlit("surge");
        reveal_strlit("surly");
        reveal_strlit("sushi");
        reveal_strlit("swami");
        reveal_strlit("swamp");
        reveal_strlit("swarm");
        reveal_strlit("swash");
        reveal_strlit("swath");
        reveal_strlit("swear");
        reveal_strlit("sweat");
        reveal_strlit("sweep");
        reveal_strlit("sweet");
        reveal_strlit("swell");
        reveal_strlit("swept");
        reveal_strlit("swift");
        reveal_strlit("swill");
        reveal_strlit("swine");
        reveal_strlit("swing");
        reveal_strlit("swirl");
        reveal_strlit("swish");
        reveal_strlit("swoon");
        assert(words.deep_view().subrange(0, old(words).deep_view().len() as int)
            =~= old(words).deep_view());
        assert(words.deep_view().subrange(
            old(words).deep_view().len() as int,
            words.deep_view().len() as int,
        ) =~= words_view_34());
    }
}

spec fn words_view_35() -> Seq<Seq<char>> {
    seq!["swoop"@, "sword"@, "swore"@, "sworn"@, "swung"@, "synod"@, "syrup"@, "tabby"@, "table"@, "taboo"@, "tacit"@, "tacky"@, "taffy"@, "taint"@, "taken"@, "taker"@, "tally"@, "talon"@, "tamer"@, "tango"@, "tangy"@, "taper"@, "tapir"@, "tardy"@, "tarot"@, "taste"@, "tasty"@, "tatty"@, "taunt"@, "tawny"@, "teach"@, "teary"@, "tease"@, "teddy"@, "teeth"@, "tempo"@, "tenet"@, "tenor"@, "tense"@, "tenth"@, "tepee"@, "tepid"@, "terra"@, "terse"@, "testy"@, "thank"@, "theft"@, "their"@, "theme"@, "there"@]
}

#[verifier::rlimit(100)]
fn push_words_35(words: &mut Vec<&'static str>)
    ensures
        final(words).deep_view().len() == old(words).deep_view().len() + 50,
        final(words).deep_view().subrange(0, old(words).deep_view().len() as int)
            == old(words).deep_view(),
        final(words).deep_view().subrange(
            old(words).deep_view().len() as int,
            final(words).deep_view().len() as int,
        ) == words_view_35(),
        forall|j: int|
            old(words).deep_view().len() <= j < final(words).deep_view().len()
                ==> (#[trigger] final(words).deep_view()[j]).len() == 5,
{
    words.push("swoop");
    words.push("sword");
    words.push("swore");
    words.push("sworn");
    words.push("swung");
    words.push("synod");
    words.push("syrup");
    words.push("tabby");
    words.push("table");
    words.push("taboo");
    words.push("tacit");
    words.push("tacky");
    words.push("taffy");
    words.push("taint");
    words.push("taken");
    words.push("taker");
    words.push("tally");
    words.push("talon");
    words.push("tamer");
    words.push("tango");
    words.push("tangy");
    words.push("taper");
    words.push("tapir");
    words.push("tardy");
    words.push("tarot");
    words.push("taste");
    words.push("tasty");
    words.push("tatty");
    words.push("taunt");
    words.push("tawny");
    words.push("teach");
    words.push("teary");
    words.push("tease");
    words.push("teddy");
    words.push("teeth");
    words.push("tempo");
    words.push("tenet");
    words.push("tenor");
    words.push("tense");
    words.push("tenth");
    words.push("tepee");
    words.push("tepid");
    words.push("terra");
    words.push("terse");
    words.push("testy");
    words.push("thank");
    words.push("theft");
    words.push("their");
    words.push("theme");
    words.push("there");
    proof {
        reveal_strlit("swoop");
        reveal_strlit("sword");
        reveal_strlit("swore");
        reveal_strlit("sworn");
        reveal_strlit("swung");
        reveal_strlit("synod");
        reveal_strlit("syrup");
        reveal_strlit("tabby");
        reveal_strlit("table");
        reveal_strlit("taboo");
        reveal_strlit("tacit");
        reveal_strlit("tacky");
        reveal_strlit("taffy");
        reveal_strlit("taint");
        reveal_strlit("taken");
        reveal_strlit("taker");
        reveal_strlit("tally");
        reveal_strlit("talon");
        reveal_strlit("tamer");
        reveal_strlit("tango");
        reveal_strlit("tangy");
        reveal_strlit("taper");
        reveal_strlit("tapir");
        reveal_strlit("tardy");
        reveal_strlit("tarot");
        reveal_strlit("taste");
        reveal_strlit("tasty");
        reveal_strlit("tatty");
        reveal_strlit("taunt");
        reveal_strlit("tawny");
        reveal_strlit("teach");
        reveal_strlit("teary");
        reveal_strlit("tease");
        reveal_strlit("teddy");
        reveal_strlit("teeth");
        reveal_strlit("tempo");
        reveal_strlit("tenet");
        reveal_strlit("tenor");
        reveal_strlit("tense");
        reveal_strlit("tenth");
        reveal_strlit("tepee");
        reveal_strlit("tepid");
        reveal_strlit("terra");
        reveal_strlit("terse");
        reveal_strlit("testy");
        reveal_strlit("thank");
        reveal_strlit("theft");
        reveal_strlit("their");
        reveal_strlit("theme");
        reveal_strlit("there");
        assert(words.deep_view().subrange(0, old(words).deep_view().len() as int)
            =~= old(words).deep_view());
        assert(words.deep_view().subrange(
            old(words).deep_view().len() as int,
            words.deep_view().len() as int,
        ) =~= words_view_35());
    }
}

spec fn words_view_36() -> Seq<Seq<char>> {
    seq!["these"@, "theta"@, "thick"@, "thief"@, "thigh"@, "thing"@, "think"@, "third"@, "thong"@, "thorn"@, "those"@, "three"@, "threw"@, "throb"@, "throw"@, "thrum"@, "thumb"@, "thump"@, "thyme"@, "tiara"@, "tibia"@, "tidal"@, "tiger"@, "tight"@, "tilde"@, "timer"@, "timid"@, "tipsy"@, "titan"@, "tithe"@, "title"@, "toast"@, "today"@, "toddy"@, "token"@, "tonal"@, "tonga"@, "tonic"@, "tooth"@, "topaz"@, "topic"@, "torch"@, "torso"@, "torus"@, "total"@, "totem"@, "touch"@, "tough"@, "towel"@, "tower"@]
}

#[verifier::rlimit(100)]
fn push_words_36(words: &mut Vec<&'static str>)
    ensures
        final(words).deep_view().len() == old(words).deep_view().len() + 50,
        final(words).deep_view().subrange(0, old(words).deep_view().len() as int)
            == old(words).deep_view(),
        final(words).deep_view().subrange(
            old(words).deep_view().len() as int,
            final(words).deep_view().len() as int,
        ) == words_view_36(),
        forall|j: int|
            old(words).deep_view().len() <= j < final(words).deep_view().len()
                ==> (#[trigger] final(words).deep_view()[j]).len() == 5,
{
    words.push("these");
    words.push("theta");
    words.push("thick");
    words.push("thief");
    words.push("thigh");
    words.push("thing");
    words.push("think");
    words.push("third");
    words.push("thong");
    words.push("thorn");
    words.push("those");
    words.push("three");
    words.push("threw");
    words.push("throb");
    words.push("throw");
    words.push("thrum");
    words.push("thumb");
    words.push("thump");
    words.push("thyme");
    words.push("tiara");
    words.push("tibia");
    words.push("tidal");
    words.push("tiger");
    words.push("tight");
    words.push("tilde");
    words.push("timer");
    words.push("timid");
    words.push("tipsy");
    words.push("titan");
    words.push("tithe");
    words.push("title");
    words.push("toast");
    words.push("today");
    words.push("toddy");
    words.push("token");
    words.push("tonal");
    words.push("tonga");
    words.push("tonic");
    words.push("tooth");
    words.push("topaz");
    words.push("topic");
    words.push("torch");
    words.push("torso");
    words.push("torus");
    words.push("total");
    words.push("totem");
    words.push("touch");
    words.push("tough");
    words.push("towel");
    words.push("tower");
    proof {
        reveal_strlit("these");
        reveal_strlit("theta");
        reveal_strlit("thick");
        reveal_strlit("thief");
        reveal_strlit("thigh");
        reveal_strlit("thing");
        reveal_strlit("think");
        reveal_strlit("third");
        reveal_strlit("thong");
        reveal_strlit("thorn");
        reveal_strlit("those");
        reveal_strlit("three");
        reveal_strlit("threw");
        reveal_strlit("throb");
        reveal_strlit("throw");
        reveal_strlit("thrum");
        reveal_strlit("thumb");
        reveal_strlit("thump");
        reveal_strlit("thyme");
        reveal_strlit("tiara");
        reveal_strlit("tibia");
        reveal_strlit("tidal");
        reveal_strlit("tiger");
        reveal_strlit("tight");
        reveal_strlit("tilde");
        reveal_strlit("timer");
        reveal_strlit("timid");
        reveal_strlit("tipsy");
        reveal_strlit("titan");
        reveal_strlit("tithe");
        reveal_strlit("title");
        reveal_strlit("toast");
        reveal_strlit("today");
        reveal_strlit("toddy");
        reveal_strlit("token");
        reveal_strlit("tonal");
        reveal_strlit("tonga");
        reveal_strlit("tonic");
        reveal_strlit("tooth");
        reveal_strlit("topaz");
        reveal_strlit("topic");
        reveal_strlit("torch");
        reveal_strlit("torso");
        reveal_strlit("torus");
        reveal_strlit("total");
        reveal_strlit("totem");
        reveal_strlit("touch");
        reveal_strlit("tough");
        reveal_strlit("towel");
        reveal_strlit("tower");
        assert(words.deep_view().subrange(0, old(words).deep_view().len() as int)
            =~= old(words).deep_view());
        assert(words.deep_view().subrange(
            old(words).deep_view().len() as int,
            words.deep_view().len() as int,
        ) =~= words_view_36());
    }
}

spec fn words_view_37() -> Seq<Seq<char>> {
    seq!["toxic"@, "toxin"@, "trace"@, "track"@, "tract"@, "trade"@, "trail"@, "train"@, "trait"@, "tramp"@, "trash"@, "trawl"@, "tread"@, "treat"@, "trend"@, "triad"@, "trial"@, "tribe"@, "trice"@, "trick"@, "tried"@, "tripe"@, "trite"@, "troll"@, "troop"@, "trope"@, "trout"@, "trove"@, "truce"@, "truck"@, "truer"@, "truly"@, "trump"@, "trunk"@, "truss"@, "trust"@, "truth"@, "tryst"@, "tubal"@, "tuber"@, "tulip"@, "tulle"@, "tumor"@, "tunic"@, "turbo"@, "tutor"@, "twang"@, "tweak"@, "tweed"@, "tweet"@]
}

#[verifier::rlimit(100)]
fn push_words_37(words: &mut Vec<&'static str>)
    ensures
        final(words).deep_view().len() == old(words).deep_view().len() + 50,
        final(words).deep_view().subrange(0, old(words).deep_view().len() as int)
            == old(words).deep_view(),
        final(words).deep_view().subrange(
            old(words).deep_view().len() as int,
            final(words).deep_view().len() as int,
        ) == words_view_37(),
        forall|j: int|
            old(words).deep_view().len() <= j < final(words).deep_view().len()
                ==> (#[trigger] final(words).deep_view()[j]).len() == 5,
{
    words.push("toxic");
    words.push("toxin");
    words.push("trace");
    words.push("track");
    words.push("tract");
    words.push("trade");
    words.push("trail");
    words.push("train");
    words.push("trait");
    words.push("tramp");
    words.push("trash");
    words.push("trawl");
    words.push("tread");
    words.push("treat");
    words.push("trend");
    words.push("triad");
    words.push("trial");
    words.push("tribe");
    words.push("trice");
    words.push("trick");
    words.push("tried");
    words.push("tripe");
    words.push("trite");
    words.push("troll");
    words.push("troop");
    words.push("trope");
    words.push("trout");
    words.push("trove");
    words.push("truce");
    words.push("truck");
    words.push("truer");
    words.push("truly");
    words.push("trump");
    words.push("trunk");
    words.push("truss");
    words.push("trust");
    words.push("truth");
    words.push("tryst");
    words.push("tubal");
    words.push("tuber");
    words.push("tulip");
    words.push("tulle");
    words.push("tumor");
    words.push("tunic");
    words.push("turbo");
    words.push("tutor");
    words.push("twang");
    words.push("tweak");
    words.push("tweed");
    words.push("tweet");
    proof {
        reveal_strlit("toxic");
        reveal_strlit("toxin");
        reveal_strlit("trace");
        reveal_strlit("track");
        reveal_strlit("tract");
        reveal_strlit("trade");
        reveal_strlit("trail");
        reveal_strlit("train");
        reveal_strlit("trait");
        reveal_strlit("tramp");
        reveal_strlit("trash");
        reveal_strlit("trawl");
        reveal_strlit("tread");
        reveal_strlit("treat");
        reveal_strlit("trend");
        reveal_strlit("triad");
        reveal_strlit("trial");
        reveal_strlit("tribe");
        reveal_strlit("trice");
        reveal_strlit("trick");
        reveal_strlit("tried");
        reveal_strlit("tripe");
        reveal_strlit("trite");
        reveal_strlit("troll");
        reveal_strlit("troop");
        reveal_strlit("trope");
        reveal_strlit("trout");
        reveal_strlit("trove");
        reveal_strlit("truce");
        reveal_strlit("truck");
        reveal_strlit("truer");
        reveal_strlit("truly");
        reveal_strlit("trump");
        reveal_strlit("trunk");
        reveal_strlit("truss");
        reveal_strlit("trust");
        reveal_strlit("truth");
        reveal_strlit("tryst");
        reveal_strlit("tubal");
        reveal_strlit("tuber");
        reveal_strlit("tulip");
        reveal_strlit("tulle");
        reveal_strlit("tumor");
        reveal_strlit("tunic");
        reveal_strlit("turbo");
        reveal_strlit("tutor");
        reveal_strlit("twang");
        reveal_strlit("tweak");
        reveal_strlit("tweed");
        reveal_strlit("tweet");
        assert(words.deep_view().subrange(0, old(words).deep_view().len() as int)
            =~= old(words).deep_view());
        assert(words.deep_view().subrange(
            old(words).deep_view().len() as int,
            words.deep_view().len() as int,
        ) =~= words_view_37());
    }
}

spec fn words_view_38() -> Seq<Seq<char>> {
    seq!["twice"@, "twine"@, "twirl"@, "twist"@, "twixt"@, "tying"@, "udder"@, "ulcer"@, "ultra"@, "umbra"@, "uncle"@, "uncut"@, "under"@, "undid"@, "undue"@, "unfed"@, "unfit"@, "unify"@, "union"@, "unite"@, "unity"@, "unlit"@, "unmet"@, "unset"@, "untie"@, "until"@, "unwed"@, "unzip"@, "upper"@, "upset"@, "urban"@, "urine"@, "usage"@, "usher"@, "using"@, "usual"@, "usurp"@, "utile"@, "utter"@, "vague"@, "valet"@, "valid"@, "valor"@, "value"@, "valve"@, "vapid"@, "vapor"@, "vault"@, "vaunt"@, "vegan"@]
}

#[verifier::rlimit(100)]
fn push_words_38(words: &mut Vec<&'static str>)
    ensures
        final(words).deep_view().len() == old(words).deep_view().len() + 50,
        final(words).deep_view().subrange(0, old(words).deep_view().len() as int)
            == old(words).deep_view(),
        final(words).deep_view().subrange(
            old(words).deep_view().len() as int,
            final(words).deep_view().len() as int,
        ) == words_view_38(),
        forall|j: int|
            old(words).deep_view().len() <= j < final(words).deep_view().len()
                ==> (#[trigger] final(words).deep_view()[j]).len() == 5,
{
    words.push("twice");
    words.push("twine");
    words.push("twirl");
    words.push("twist");
    words.push("twixt");
    words.push("tying");
    words.push("udder");
    words.push("ulcer");
    words.push("ultra");
    words.push("umbra");
    words.push("uncle");
    words.push("uncut");
    words.push("under");
    words.push("undid");
    words.push("undue");
    words.push("unfed");
    words.push("unfit");
    words.push("unify");
    words.push("union");
    words.push("unite");
    words.push("unity");
    words.push("unlit");
    words.push("unmet");
    words.push("unset");
    words.push("untie");
    words.push("until");
    words.push("unwed");
    words.push("unzip");
    words.push("upper");
    words.push("upset");
    words.push("urban");
    words.push("urine");
    words.push("usage");
    words.push("usher");
    words.push("using");
    words.push("usual");
    words.push("usurp");
    words.push("utile");
    words.push("utter");
    words.push("vague");
    words.push("valet");
    words.push("valid");
    words.push("valor");
    words.push("value");
    words.push("valve");
    words.push("vapid");
    words.push("vapor");
    words.push("vault");
    words.push("vaunt");
    words.push("vegan");
    proof {
        reveal_strlit("twice");
        reveal_strlit("twine");
        reveal_strlit("twirl");
        reveal_strlit("twist");
        reveal_strlit("twixt");
        reveal_strlit("tying");
        reveal_strlit("udder");
        reveal_strlit("ulcer");
        reveal_strlit("ultra");
        reveal_strlit("umbra");
        reveal_strlit("uncle");
        reveal_strlit("uncut");
        reveal_strlit("under");
        reveal_strlit("undid");
        reveal_strlit("undue");
        reveal_strlit("unfed");
        reveal_strlit("unfit");
        reveal_strlit("unify");
        reveal_strlit("union");
        reveal_strlit("unite");
        reveal_strlit("unity");
        reveal_strlit("unlit");
        reveal_strlit("unmet");
        reveal_strlit("unset");
        reveal_strlit("untie");
        reveal_strlit("until");
        reveal_strlit("unwed");
        reveal_strlit("unzip");
        reveal_strlit("upper");
        reveal_strlit("upset");
        reveal_strlit("urban");
        reveal_strlit("urine");
        reveal_strlit("usage");
        reveal_strlit("usher");
        reveal_strlit("using");
        reveal_strlit("usual");
        reveal_strlit("usurp");
        reveal_strlit("utile");
        reveal_strlit("utter");
        reveal_strlit("vague");
        reveal_strlit("valet");
        reveal_strlit("valid");
        reveal_strlit("valor");
        reveal_strlit("value");
        reveal_strlit("valve");
        reveal_strlit("vapid");
        reveal_strlit("vapor");
        reveal_strlit("vault");
        reveal_strlit("vaunt");
        reveal_strlit("vegan");
        assert(words.deep_view().subrange(0, old(words).deep_view().len() as int)
            =~= old(words).deep_view());
        assert(words.deep_view().subrange(
            old(words).deep_view().len() as int,
            words.deep_view().len() as int,
        ) =~= words_view_38());
    }
}

spec fn words_view_39() -> Seq<Seq<char>> {
    seq!["venom"@, "venue"@, "verge"@, "verse"@, "verso"@, "verve"@, "vicar"@, "video"@, "vigil"@, "vigor"@, "villa"@, "vinyl"@, "viola"@, "viper"@, "viral"@, "virus"@, "visit"@, "visor"@, "vista"@, "vital"@, "vivid"@, "vixen"@, "vocal"@, "vodka"@, "vogue"@, "voice"@, "voila"@, "vomit"@, "voter"@, "vouch"@, "vowel"@, "vying"@, "wacky"@, "wafer"@, "wager"@, "wagon"@, "waist"@, "waive"@, "waltz"@, "warty"@, "waste"@, "watch"@, "water"@, "waver"@, "waxen"@, "weary"@, "weave"@, "wedge"@, "weedy"@, "weigh"@]
}

#[verifier::rlimit(100)]
fn push_words_39(words: &mut Vec<&'static str>)
    ensures
        final(words).deep_view().len() == old(words).deep_view().len() + 50,
        final(words).deep_view().subrange(0, old(words).deep_view().len() as int)
            == old(words).deep_view(),
        final(words).deep_view().subrange(
            old(words).deep_view().len() as int,
            final(words).deep_view().len() as int,
        ) == words_view_39(),
        forall|j: int|
            old(words).deep_view().len() <= j < final(words).deep_view().len()
                ==> (#[trigger] final(words).deep_view()[j]).len() == 5,
{
    words.push("venom");
    words.push("venue");
    words.push("verge");
    words.push("verse");
    words.push("verso");
    words.push("verve");
    words.push("vicar");
    words.push("video");
    words.push("vigil");
    words.push("vigor");
    words.push("villa");
    words.push("vinyl");
    words.push("viola");
    words.push("viper");
    words.push("viral");
    words.push("virus");
    words.push("visit");
    words.push("visor");
    words.push("vista");
    words.push("vital");
    words.push("vivid");
    words.push("vixen");
    words.push("vocal");
    words.push("vodka");
    words.push("vogue");
    words.push("voice");
    words.push("voila");
    words.push("vomit");
    words.push("voter");
    words.push("vouch");
    words.push("vowel");
    words.push("vying");
    words.push("wacky");
    words.push("wafer");
    words.push("wager");
    words.push("wagon");
    words.push("waist");
    words.push("waive");
    words.push("waltz");
    words.push("warty");
    words.push("waste");
    words.push("watch");
    words.push("water");
    words.push("waver");
    words.push("waxen");
    words.push("weary");
    words.push("weave");
    words.push("wedge");
    words.push("weedy");
    words.push("weigh");
    proof {
        reveal_strlit("venom");
        reveal_strlit("venue");
        reveal_strlit("verge");
        reveal_strlit("verse");
        reveal_strlit("verso");
        reveal_strlit("verve");
        reveal_strlit("vicar");
        reveal_strlit("video");
        reveal_strlit("vigil");
        reveal_strlit("vigor");
        reveal_strlit("villa");
        reveal_strlit("vinyl");
        reveal_strlit("viola");
        reveal_strlit("viper");
        reveal_strlit("viral");
        reveal_strlit("virus");
        reveal_strlit("visit");
        reveal_strlit("visor");
        reveal_strlit("vista");
        reveal_strlit("vital");
        reveal_strlit("vivid");
        reveal_strlit("vixen");
        reveal_strlit("vocal");
        reveal_strlit("vodka");
        reveal_strlit("vogue");
        reveal_strlit("voice");
        reveal_strlit("voila");
        reveal_strlit("vomit");
        reveal_strlit("voter");
        reveal_strlit("vouch");
        reveal_strlit("vowel");
        reveal_strlit("vying");
        reveal_strlit("wacky");
        reveal_strlit("wafer");
        reveal_strlit("wager");
        reveal_strlit("wagon");
        reveal_strlit("waist");
        reveal_strlit("waive");
        reveal_strlit("waltz");
        reveal_strlit("warty");
        reveal_strlit("waste");
        reveal_strlit("watch");
        reveal_strlit("water");
        reveal_strlit("waver");
        reveal_strlit("waxen");
        reveal_strlit("weary");
        reveal_strlit("weave");
        reveal_strlit("wedge");
        reveal_strlit("weedy");
        reveal_strlit("weigh");
        assert(words.deep_view().subrange(0, old(words).deep_view().len() as int)
            =~= old(words).deep_view());
        assert(words.deep_view().subrange(
            old(words).deep_view().len() as int,
            words.deep_view().len() as int,
        ) =~= words_view_39());
    }
}

spec fn words_view_40() -> Seq<Seq<char>> {
    seq!["weird"@, "welch"@, "welsh"@, "wench"@, "whack"@, "whale"@, "wharf"@, "wheat"@, "wheel"@, "whelp"@, "where"@, "which"@, "whiff"@, "while"@, "whine"@, "whiny"@, "whirl"@, "whisk"@, "white"@, "whole"@, "whoop"@, "whose"@, "widen"@, "wider"@, "widow"@, "width"@, "wield"@, "wight"@, "willy"@, "wimpy"@, "wince"@, "winch"@, "windy"@, "wiser"@, "wispy"@, "witch"@, "witty"@, "woken"@, "woman"@, "women"@, "woody"@, "wooer"@, "wooly"@, "woozy"@, "wordy"@, "world"@, "worry"@, "worse"@, "worst"@, "worth"@]
}

#[verifier::rlimit(100)]
fn push_words_40(words: &mut Vec<&'static str>)
    ensures
        final(words).deep_view().len() == old(words).deep_view().len() + 50,
        final(words).deep_view().subrange(0, old(words).deep_view().len() as int)
            == old(words).deep_view(),
        final(words).deep_view().subrange(
            old(words).deep_view().len() as int,
            final(words).deep_view().len() as int,
        ) == words_view_40(),
        forall|j: int|
            old(words).deep_view().len() <= j < final(words).deep_view().len()
                ==> (#[trigger] final(words).deep_view()[j]).len() == 5,
{
    words.push("weird");
    words.push("welch");
    words.push("welsh");
    words.push("wench");
    words.push("whack");
    words.push("whale");
    words.push("wharf");
    words.push("wheat");
    words.push("wheel");
    words.push("whelp");
    words.push("where");
    words.push("which");
    words.push("whiff");
    words.push("while");
    words.push("whine");
    words.push("whiny");
    words.push("whirl");
    words.push("whisk");
    words.push("white");
    words.push("whole");
    words.push("whoop");
    words.push("whose");
    words.push("widen");
    words.push("wider");
    words.push("widow");
    words.push("width");
    words.push("wield");
    words.push("wight");
    words.push("willy");
    words.push("wimpy");
    words.push("wince");
    words.push("winch");
    words.push("windy");
    words.push("wiser");
    words.push("wispy");
    words.push("witch");
    words.push("witty");
    words.push("woken");
    words.push("woman");
    words.push("women");
    words.push("woody");
    words.push("wooer");
    words.push("wooly");
    words.push("woozy");
    words.push("wordy");
    words.push("world");
    words.push("worry");
    words.push("worse");
    words.push("worst");
    words.push("worth");
    proof {
        reveal_strlit("weird");
        reveal_strlit("welch");
        reveal_strlit("welsh");
        reveal_strlit("wench");
        reveal_strlit("whack");
        reveal_strlit("whale");
        reveal_strlit("wharf");
        reveal_strlit("wheat");
        reveal_strlit("wheel");
        reveal_strlit("whelp");
        reveal_strlit("where");
        reveal_strlit("which");
        reveal_strlit("whiff");
        reveal_strlit("while");
        reveal_strlit("whine");
        reveal_strlit("whiny");
        reveal_strlit("whirl");
        reveal_strlit("whisk");
        reveal_strlit("white");
        reveal_strlit("whole");
        reveal_strlit("whoop");
        reveal_strlit("whose");
        reveal_strlit("widen");
        reveal_strlit("wider");
        reveal_strlit("widow");
        reveal_strlit("width");
        reveal_strlit("wield");
        reveal_strlit("wight");
        reveal_strlit("willy");
        reveal_strlit("wimpy");
        reveal_strlit("wince");
        reveal_strlit("winch");
        reveal_strlit("windy");
        reveal_strlit("wiser");
        reveal_strlit("wispy");
        reveal_strlit("witch");
        reveal_strlit("witty");
        reveal_strlit("woken");
        reveal_strlit("woman");
        reveal_strlit("women");
        reveal_strlit("woody");
        reveal_strlit("wooer");
        reveal_strlit("wooly");
        reveal_strlit("woozy");
        reveal_strlit("wordy");
        reveal_strlit("world");
        reveal_strlit("worry");
        reveal_strlit("worse");
        reveal_strlit("worst");
        reveal_strlit("worth");
        assert(words.deep_view().subrange(0, old(words).deep_view().len() as int)
            =~= old(words).deep_view());
        assert(words.deep_view().subrange(
            old(words).deep_view().len() as int,
            words.deep_view().len() as int,
        ) =~= words_view_40());
    }
}

spec fn words_view_41() -> Seq<Seq<char>> {
    seq!["would"@, "wound"@, "woven"@, "wrack"@, "wrath"@, "wreak"@, "wreck"@, "wrest"@, "wring"@, "wrist"@, "write"@, "wrong"@, "wrote"@, "wrung"@, "wryly"@, "yacht"@, "yearn"@, "yeast"@, "yield"@, "young"@, "youth"@, "zebra"@, "zesty"@, "zonal"@]
}

#[verifier::rlimit(100)]
fn push_words_41(words: &mut Vec<&'static str>)
    ensures
        final(words).deep_view().len() == old(words).deep_view().len() + 24,
        final(words).deep_view().subrange(0, old(words).deep_view().len() as int)
            == old(words).deep_view(),
        final(words).deep_view().subrange(
            old(words).deep_view().len() as int,
            final(words).deep_view().len() as int,
        ) == words_view_41(),
        forall|j: int|
            old(words).deep_view().len() <= j < final(words).deep_view().len()
                ==> (#[trigger] final(words).deep_view()[j]).len() == 5,
{
    words.push("would");
    words.push("wound");
    words.push("woven");
    words.push("wrack");
    words.push("wrath");
    words.push("wreak");
    words.push("wreck");
    words.push("wrest");
    words.push("wring");
    words.push("wrist");
    words.push("write");
    words.push("wrong");
    words.push("wrote");
    words.push("wrung");
    words.push("wryly");
    words.push("yacht");
    words.push("yearn");
    words.push("yeast");
    words.push("yield");
    words.push("young");
    words.push("youth");
    words.push("zebra");
    words.push("zesty");
    words.push("zonal");
    proof {
        reveal_strlit("would");
        reveal_strlit("wound");
        reveal_strlit("woven");
        reveal_strlit("wrack");
        reveal_strlit("wrath");
        reveal_strlit("wreak");
        reveal_strlit("wreck");
        reveal_strlit("wrest");
        reveal_strlit("wring");
        reveal_strlit("wrist");
        reveal_strlit("write");
        reveal_strlit("wrong");
        reveal_strlit("wrote");
        reveal_strlit("wrung");
        reveal_strlit("wryly");
        reveal_strlit("yacht");
        reveal_strlit("yearn");
        reveal_strlit("yeast");
        reveal_strlit("yield");
        reveal_strlit("young");
        reveal_strlit("youth");
        reveal_strlit("zebra");
        reveal_strlit("zesty");
        reveal_strlit("zonal");
        assert(words.deep_view().subrange(0, old(words).deep_view().len() as int)
            =~= old(words).deep_view());
        assert(words.deep_view().subrange(
            old(words).deep_view().len() as int,
            words.deep_view().len() as int,
        ) =~= words_view_41());
    }
}

/// The built-in word corpus, as specification-level data: what
/// `crate::corpus::get_corpus` returns is exactly this sequence.
pub closed spec fn builtin_words_view() -> Seq<Seq<char>> {
    Seq::<Seq<char>>::empty()
        + words_view_00()
        + words_view_01()
        + words_view_02()
        + words_view_03()
        + words_view_04()
        + words_view_05()
        + words_view_06()
        + words_view_07()
        + words_view_08()
        + words_view_09()
        + words_view_10()
        + words_view_11()
        + words_view_12()
        + words_view_13()
        + words_view_14()
        + words_view_15()
        + words_view_16()
        + words_view_17()
        + words_view_18()
        + words_view_19()
        + words_view_20()
        + words_view_21()
        + words_view_22()
        + words_view_23()
        + words_view_24()
        + words_view_25()
        + words_view_26()
        + words_view_27()
        + words_view_28()
        + words_view_29()
        + words_view_30()
        + words_view_31()
        + words_view_32()
        + words_view_33()
        + words_view_34()
        + words_view_35()
        + words_view_36()
        + words_view_37()
        + words_view_38()
        + words_view_39()
        + words_view_40()
        + words_view_41()
}

/// The raw built-in word list.
#[verifier::rlimit(100)]
pub(crate) fn raw_word_list() -> (words: Vec<&'static str>)
    ensures
        words.deep_view() == builtin_words_view(),
        words.deep_view().len() == 2074,
        forall|j: int|
            0 <= j < words.deep_view().len()
                ==> (#[trigger] words.deep_view()[j]).len() == 5,
{
    let mut words: Vec<&'static str> = Vec::new();
    proof {
        assert(words.deep_view() =~= Seq::<Seq<char>>::empty());
    }
    let ghost pre_push_words_00 = words.deep_view();
    push_words_00(&mut words);
    proof {
        lemma_concat_from_subranges(pre_push_words_00, words.deep_view(), words_view_00());
        assert forall|j: int|
            0 <= j < words.deep_view().len() implies (#[trigger] words.deep_view()[j]).len()
            == 5 by {
            if j < pre_push_words_00.len() {
                assert(words.deep_view()[j] == pre_push_words_00[j]);
            }
        }
    }
    let ghost pre_push_words_01 = words.deep_view();
    push_words_01(&mut words);
    proof {
        lemma_concat_from_subranges(pre_push_words_01, words.deep_view(), words_view_01());
        assert forall|j: int|
            0 <= j < words.deep_view().len() implies (#[trigger] words.deep_view()[j]).len()
            == 5 by {
            if j < pre_push_words_01.len() {
                assert(words.deep_view()[j] == pre_push_words_01[j]);
            }
        }
    }
    let ghost pre_push_words_02 = words.deep_view();
    push_words_02(&mut words);
    proof {
        lemma_concat_from_subranges(pre_push_words_02, words.deep_view(), words_view_02());
        assert forall|j: int|
            0 <= j < words.deep_view().len() implies (#[trigger] words.deep_view()[j]).len()
            == 5 by {
            if j < pre_push_words_02.len() {
                assert(words.deep_view()[j] == pre_push_words_02[j]);
            }
        }
    }
    let ghost pre_push_words_03 = words.deep_view();
    push_words_03(&mut words);
    proof {
        lemma_concat_from_subranges(pre_push_words_03, words.deep_view(), words_view_03());
        assert forall|j: int|
            0 <= j < words.deep_view().len() implies (#[trigger] words.deep_view()[j]).len()
            == 5 by {
            if j < pre_push_words_03.len() {
                assert(words.deep_view()[j] == pre_push_words_03[j]);
            }
        }
    }
    let ghost pre_push_words_04 = words.deep_view();
    push_words_04(&mut words);
    proof {
        lemma_concat_from_subranges(pre_push_words_04, words.deep_view(), words_view_04());
        assert forall|j: int|
            0 <= j < words.deep_view().len() implies (#[trigger] words.deep_view()[j]).len()
            == 5 by {
            if j < pre_push_words_04.len() {
                assert(words.deep_view()[j] == pre_push_words_04[j]);
            }
        }
    }
    let ghost pre_push_words_05 = words.deep_view();
    push_words_05(&mut words);
    proof {
        lemma_concat_from_subranges(pre_push_words_05, words.deep_view(), words_view_05());
        assert forall|j: int|
            0 <= j < words.deep_view().len() implies (#[trigger] words.deep_view()[j]).len()
            == 5 by {
            if j < pre_push_words_05.len() {
                assert(words.deep_view()[j] == pre_push_words_05[j]);
            }
        }
    }
    let ghost pre_push_words_06 = words.deep_view();
    push_words_06(&mut words);
    proof {
        lemma_concat_from_subranges(pre_push_words_06, words.deep_view(), words_view_06());
        assert forall|j: int|
            0 <= j < words.deep_view().len() implies (#[trigger] words.deep_view()[j]).len()
            == 5 by {
            if j < pre_push_words_06.len() {
                assert(words.deep_view()[j] == pre_push_words_06[j]);
            }
        }
    }
    let ghost pre_push_words_07 = words.deep_view();
    push_words_07(&mut words);
    proof {
        lemma_concat_from_subranges(pre_push_words_07, words.deep_view(), words_view_07());
        assert forall|j: int|
            0 <= j < words.deep_view().len() implies (#[trigger] words.deep_view()[j]).len()
            == 5 by {
            if j < pre_push_words_07.len() {
                assert(words.deep_view()[j] == pre_push_words_07[j]);
            }
        }
    }
    let ghost pre_push_words_08 = words.deep_view();
    push_words_08(&mut words);
    proof {
        lemma_concat_from_subranges(pre_push_words_08, words.deep_view(), words_view_08());
        assert forall|j: int|
            0 <= j < words.deep_view().len() implies (#[trigger] words.deep_view()[j]).len()
            == 5 by {
            if j < pre_push_words_08.len() {
                assert(words.deep_view()[j] == pre_push_words_08[j]);
            }
        }
    }
    let ghost pre_push_words_09 = words.deep_view();
    push_words_09(&mut words);
    proof {
        lemma_concat_from_subranges(pre_push_words_09, words.deep_view(), words_view_09());
        assert forall|j: int|
            0 <= j < words.deep_view().len() implies (#[trigger] words.deep_view()[j]).len()
            == 5 by {
            if j < pre_push_words_09.len() {
                assert(words.deep_view()[j] == pre_push_words_09[j]);
            }
        }
    }
    let ghost pre_push_words_10 = words.deep_view();
    push_words_10(&mut words);
    proof {
        lemma_concat_from_subranges(pre_push_words_10, words.deep_view(), words_view_10());
        assert forall|j: int|
            0 <= j < words.deep_view().len() implies (#[trigger] words.deep_view()[j]).len()
            == 5 by {
            if j < pre_push_words_10.len() {
                assert(words.deep_view()[j] == pre_push_words_10[j]);
            }
        }
    }
    let ghost pre_push_words_11 = words.deep_view();
    push_words_11(&mut words);
    proof {
        lemma_concat_from_subranges(pre_push_words_11, words.deep_view(), words_view_11());
        assert forall|j: int|
            0 <= j < words.deep_view().len() implies (#[trigger] words.deep_view()[j]).len()
            == 5 by {
            if j < pre_push_words_11.len() {
                assert(words.deep_view()[j] == pre_push_words_11[j]);
            }
        }
    }
    let ghost pre_push_words_12 = words.deep_view();
    push_words_12(&mut words);
    proof {
        lemma_concat_from_subranges(pre_push_words_12, words.deep_view(), words_view_12());
        assert forall|j: int|
            0 <= j < words.deep_view().len() implies (#[trigger] words.deep_view()[j]).len()
            == 5 by {
            if j < pre_push_words_12.len() {
                assert(words.deep_view()[j] == pre_push_words_12[j]);
            }
        }
    }
    let ghost pre_push_words_13 = words.deep_view();
    push_words_13(&mut words);
    proof {
        lemma_concat_from_subranges(pre_push_words_13, words.deep_view(), words_view_13());
        assert forall|j: int|
            0 <= j < words.deep_view().len() implies (#[trigger] words.deep_view()[j]).len()
            == 5 by {
            if j < pre_push_words_13.len() {
                assert(words.deep_view()[j] == pre_push_words_13[j]);
            }
        }
    }
    let ghost pre_push_words_14 = words.deep_view();
    push_words_14(&mut words);
    proof {
        lemma_concat_from_subranges(pre_push_words_14, words.deep_view(), words_view_14());
        assert forall|j: int|
            0 <= j < words.deep_view().len() implies (#[trigger] words.deep_view()[j]).len()
            == 5 by {
            if j < pre_push_words_14.len() {
                assert(words.deep_view()[j] == pre_push_words_14[j]);
            }
        }
    }
    let ghost pre_push_words_15 = words.deep_view();
    push_words_15(&mut words);
    proof {
        lemma_concat_from_subranges(pre_push_words_15, words.deep_view(), words_view_15());
        assert forall|j: int|
            0 <= j < words.deep_view().len() implies (#[trigger] words.deep_view()[j]).len()
            == 5 by {
            if j < pre_push_words_15.len() {
                assert(words.deep_view()[j] == pre_push_words_15[j]);
            }
        }
    }
    let ghost pre_push_words_16 = words.deep_view();
    push_words_16(&mut words);
    proof {
        lemma_concat_from_subranges(pre_push_words_16, words.deep_view(), words_view_16());
        assert forall|j: int|
            0 <= j < words.deep_view().len() implies (#[trigger] words.deep_view()[j]).len()
            == 5 by {
            if j < pre_push_words_16.len() {
                assert(words.deep_view()[j] == pre_push_words_16[j]);
            }
        }
    }
    let ghost pre_push_words_17 = words.deep_view();
    push_words_17(&mut words);
    proof {
        lemma_concat_from_subranges(pre_push_words_17, words.deep_view(), words_view_17());
        assert forall|j: int|
            0 <= j < words.deep_view().len() implies (#[trigger] words.deep_view()[j]).len()
            == 5 by {
            if j < pre_push_words_17.len() {
                assert(words.deep_view()[j] == pre_push_words_17[j]);
            }
        }
    }
    let ghost pre_push_words_18 = words.deep_view();
    push_words_18(&mut words);
    proof {
        lemma_concat_from_subranges(pre_push_words_18, words.deep_view(), words_view_18());
        assert forall|j: int|
            0 <= j < words.deep_view().len() implies (#[trigger] words.deep_view()[j]).len()
            == 5 by {
            if j < pre_push_words_18.len() {
                assert(words.deep_view()[j] == pre_push_words_18[j]);
            }
        }
    }
    let ghost pre_push_words_19 = words.deep_view();
    push_words_19(&mut words);
    proof {
        lemma_concat_from_subranges(pre_push_words_19, words.deep_view(), words_view_19());
        assert forall|j: int|
            0 <= j < words.deep_view().len() implies (#[trigger] words.deep_view()[j]).len()
            == 5 by {
            if j < pre_push_words_19.len() {
                assert(words.deep_view()[j] == pre_push_words_19[j]);
            }
        }
    }
    let ghost pre_push_words_20 = words.deep_view();
    push_words_20(&mut words);
    proof {
        lemma_concat_from_subranges(pre_push_words_20, words.deep_view(), words_view_20());
        assert forall|j: int|
            0 <= j < words.deep_view().len() implies (#[trigger] words.deep_view()[j]).len()
            == 5 by {
            if j < pre_push_words_20.len() {
                assert(words.deep_view()[j] == pre_push_words_20[j]);
            }
        }
    }
    let ghost pre_push_words_21 = words.deep_view();
    push_words_21(&mut words);
    proof {
        lemma_concat_from_subranges(pre_push_words_21, words.deep_view(), words_view_21());
        assert forall|j: int|
            0 <= j < words.deep_view().len() implies (#[trigger] words.deep_view()[j]).len()
            == 5 by {
            if j < pre_push_words_21.len() {
                assert(words.deep_view()[j] == pre_push_words_21[j]);
            }
        }
    }
    let ghost pre_push_words_22 = words.deep_view();
    push_words_22(&mut words);
    proof {
        lemma_concat_from_subranges(pre_push_words_22, words.deep_view(), words_view_22());
        assert forall|j: int|
            0 <= j < words.deep_view().len() implies (#[trigger] words.deep_view()[j]).len()
            == 5 by {
            if j < pre_push_words_22.len() {
                assert(words.deep_view()[j] == pre_push_words_22[j]);
            }
        }
    }
    let ghost pre_push_words_23 = words.deep_view();
    push_words_23(&mut words);
    proof {
        lemma_concat_from_subranges(pre_push_words_23, words.deep_view(), words_view_23());
        assert forall|j: int|
            0 <= j < words.deep_view().len() implies (#[trigger] words.deep_view()[j]).len()
            == 5 by {
            if j < pre_push_words_23.len() {
                assert(words.deep_view()[j] == pre_push_words_23[j]);
            }
        }
    }
    let ghost pre_push_words_24 = words.deep_view();
    push_words_24(&mut words);
    proof {
        lemma_concat_from_subranges(pre_push_words_24, words.deep_view(), words_view_24());
        assert forall|j: int|
            0 <= j < words.deep_view().len() implies (#[trigger] words.deep_view()[j]).len()
            == 5 by {
            if j < pre_push_words_24.len() {
                assert(words.deep_view()[j] == pre_push_words_24[j]);
            }
        }
    }
    let ghost pre_push_words_25 = words.deep_view();
    push_words_25(&mut words);
    proof {
        lemma_concat_from_subranges(pre_push_words_25, words.deep_view(), words_view_25());
        assert forall|j: int|
            0 <= j < words.deep_view().len() implies (#[trigger] words.deep_view()[j]).len()
            == 5 by {
            if j < pre_push_words_25.len() {
                assert(words.deep_view()[j] == pre_push_words_25[j]);
            }
        }
    }
    let ghost pre_push_words_26 = words.deep_view();
    push_words_26(&mut words);
    proof {
        lemma_concat_from_subranges(pre_push_words_26, words.deep_view(), words_view_26());
        assert forall|j: int|
            0 <= j < words.deep_view().len() implies (#[trigger] words.deep_view()[j]).len()
            == 5 by {
            if j < pre_push_words_26.len() {
                assert(words.deep_view()[j] == pre_push_words_26[j]);
            }
        }
    }
    let ghost pre_push_words_27 = words.deep_view();
    push_words_27(&mut words);
    proof {
        lemma_concat_from_subranges(pre_push_words_27, words.deep_view(), words_view_27());
        assert forall|j: int|
            0 <= j < words.deep_view().len() implies (#[trigger] words.deep_view()[j]).len()
            == 5 by {
            if j < pre_push_words_27.len() {
                assert(words.deep_view()[j] == pre_push_words_27[j]);
            }
        }
    }
    let ghost pre_push_words_28 = words.deep_view();
    push_words_28(&mut words);
    proof {
        lemma_concat_from_subranges(pre_push_words_28, words.deep_view(), words_view_28());
        assert forall|j: int|
            0 <= j < words.deep_view().len() implies (#[trigger] words.deep_view()[j]).len()
            == 5 by {
            if j < pre_push_words_28.len() {
                assert(words.deep_view()[j] == pre_push_words_28[j]);
            }
        }
    }
    let ghost pre_push_words_29 = words.deep_view();
    push_words_29(&mut words);
    proof {
        lemma_concat_from_subranges(pre_push_words_29, words.deep_view(), words_view_29());
        assert forall|j: int|
            0 <= j < words.deep_view().len() implies (#[trigger] words.deep_view()[j]).len()
            == 5 by {
            if j < pre_push_words_29.len() {
                assert(words.deep_view()[j] == pre_push_words_29[j]);
            }
        }
    }
    let ghost pre_push_words_30 = words.deep_view();
    push_words_30(&mut words);
    proof {
        lemma_concat_from_subranges(pre_push_words_30, words.deep_view(), words_view_30());
        assert forall|j: int|
            0 <= j < words.deep_view().len() implies (#[trigger] words.deep_view()[j]).len()
            == 5 by {
            if j < pre_push_words_30.len() {
                assert(words.deep_view()[j] == pre_push_words_30[j]);
            }
        }
    }
    let ghost pre_push_words_31 = words.deep_view();
    push_words_31(&mut words);
    proof {
        lemma_concat_from_subranges(pre_push_words_31, words.deep_view(), words_view_31());
        assert forall|j: int|
            0 <= j < words.deep_view().len() implies (#[trigger] words.deep_view()[j]).len()
            == 5 by {
            if j < pre_push_words_31.len() {
                assert(words.deep_view()[j] == pre_push_words_31[j]);
            }
        }
    }
    let ghost pre_push_words_32 = words.deep_view();
    push_words_32(&mut words);
    proof {
        lemma_concat_from_subranges(pre_push_words_32, words.deep_view(), words_view_32());
        assert forall|j: int|
            0 <= j < words.deep_view().len() implies (#[trigger] words.deep_view()[j]).len()
            == 5 by {
            if j < pre_push_words_32.len() {
                assert(words.deep_view()[j] == pre_push_words_32[j]);
            }
        }
    }
    let ghost pre_push_words_33 = words.deep_view();
    push_words_33(&mut words);
    proof {
        lemma_concat_from_subranges(pre_push_words_33, words.deep_view(), words_view_33());
        assert forall|j: int|
            0 <= j < words.deep_view().len() implies (#[trigger] words.deep_view()[j]).len()
            == 5 by {
            if j < pre_push_words_33.len() {
                assert(words.deep_view()[j] == pre_push_words_33[j]);
            }
        }
    }
    let ghost pre_push_words_34 = words.deep_view();
    push_words_34(&mut words);
    proof {
        lemma_concat_from_subranges(pre_push_words_34, words.deep_view(), words_view_34());
        assert forall|j: int|
            0 <= j < words.deep_view().len() implies (#[trigger] words.deep_view()[j]).len()
            == 5 by {
            if j < pre_push_words_34.len() {
                assert(words.deep_view()[j] == pre_push_words_34[j]);
            }
        }
    }
    let ghost pre_push_words_35 = words.deep_view();
    push_words_35(&mut words);
    proof {
        lemma_concat_from_subranges(pre_push_words_35, words.deep_view(), words_view_35());
        assert forall|j: int|
            0 <= j < words.deep_view().len() implies (#[trigger] words.deep_view()[j]).len()
            == 5 by {
            if j < pre_push_words_35.len() {
                assert(words.deep_view()[j] == pre_push_words_35[j]);
            }
        }
    }
    let ghost pre_push_words_36 = words.deep_view();
    push_words_36(&mut words);
    proof {
        lemma_concat_from_subranges(pre_push_words_36, words.deep_view(), words_view_36());
        assert forall|j: int|
            0 <= j < words.deep_view().len() implies (#[trigger] words.deep_view()[j]).len()
            == 5 by {
            if j < pre_push_words_36.len() {
                assert(words.deep_view()[j] == pre_push_words_36[j]);
            }
        }
    }
    let ghost pre_push_words_37 = words.deep_view();
    push_words_37(&mut words);
    proof {
        lemma_concat_from_subranges(pre_push_words_37, words.deep_view(), words_view_37());
        assert forall|j: int|
            0 <= j < words.deep_view().len() implies (#[trigger] words.deep_view()[j]).len()
            == 5 by {
            if j < pre_push_words_37.len() {
                assert(words.deep_view()[j] == pre_push_words_37[j]);
            }
        }
    }
    let ghost pre_push_words_38 = words.deep_view();
    push_words_38(&mut words);
    proof {
        lemma_concat_from_subranges(pre_push_words_38, words.deep_view(), words_view_38());
        assert forall|j: int|
            0 <= j < words.deep_view().len() implies (#[trigger] words.deep_view()[j]).len()
            == 5 by {
            if j < pre_push_words_38.len() {
                assert(words.deep_view()[j] == pre_push_words_38[j]);
            }
        }
    }
    let ghost pre_push_words_39 = words.deep_view();
    push_words_39(&mut words);
    proof {
        lemma_concat_from_subranges(pre_push_words_39, words.deep_view(), words_view_39());
        assert forall|j: int|
            0 <= j < words.deep_view().len() implies (#[trigger] words.deep_view()[j]).len()
            == 5 by {
            if j < pre_push_words_39.len() {
                assert(words.deep_view()[j] == pre_push_words_39[j]);
            }
        }
    }
    let ghost pre_push_words_40 = words.deep_view();
    push_words_40(&mut words);
    proof {
        lemma_concat_from_subranges(pre_push_words_40, words.deep_view(), words_view_40());
        assert forall|j: int|
            0 <= j < words.deep_view().len() implies (#[trigger] words.deep_view()[j]).len()
            == 5 by {
            if j < pre_push_words_40.len() {
                assert(words.deep_view()[j] == pre_push_words_40[j]);
            }
        }
    }
    let ghost pre_push_words_41 = words.deep_view();
    push_words_41(&mut words);
    proof {
        lemma_concat_from_subranges(pre_push_words_41, words.deep_view(), words_view_41());
        assert forall|j: int|
            0 <= j < words.deep_view().len() implies (#[trigger] words.deep_view()[j]).len()
            == 5 by {
            if j < pre_push_words_41.len() {
                assert(words.deep_view()[j] == pre_push_words_41[j]);
            }
        }
    }
    proof {
        assert(words.deep_view() == builtin_words_view());
    }
    words
}

spec fn answers_view_00() -> Seq<Seq<char>> {
    seq!["abide"@, "annoy"@, "beard"@, "booth"@, "burst"@, "chest"@, "clout"@, "crept"@, "depth"@, "drier"@, "eject"@, "ethos"@, "feral"@, "flesh"@, "foyer"@, "gaunt"@, "going"@, "grope"@, "hater"@, "howdy"@, "inter"@, "kneed"@, "lefty"@, "lowly"@, "march"@, "miser"@]
}

#[verifier::rlimit(100)]
fn push_answers_00(words: &mut Vec<&'static str>)
    ensures
        final(words).deep_view().len() == old(words).deep_view().len() + 26,
        final(words).deep_view().subrange(0, old(words).deep_view().len() as int)
            == old(words).deep_view(),
        final(words).deep_view().subrange(
            old(words).deep_view().len() as int,
            final(words).deep_view().len() as int,
        ) == answers_view_00(),
        forall|j: int|
            old(words).deep_view().len() <= j < final(words).deep_view().len()
                ==> (#[trigger] final(words).deep_view()[j]).len() == 5,
{
    words.push("abide");
    words.push("annoy");
    words.push("beard");
    words.push("booth");
    words.push("burst");
    words.push("chest");
    words.push("clout");
    words.push("crept");
    words.push("depth");
    words.push("drier");
    words.push("eject");
    words.push("ethos");
    words.push("feral");
    words.push("flesh");
    words.push("foyer");
    words.push("gaunt");
    words.push("going");
    words.push("grope");
    words.push("hater");
    words.push("howdy");
    words.push("inter");
    words.push("kneed");
    words.push("lefty");
    words.push("lowly");
    words.push("march");
    words.push("miser");
    proof {
        reveal_strlit("abide");
        reveal_strlit("annoy");
        reveal_strlit("beard");
        reveal_strlit("booth");
        reveal_strlit("burst");
        reveal_strlit("chest");
        reveal_strlit("clout");
        reveal_strlit("crept");
        reveal_strlit("depth");
        reveal_strlit("drier");
        reveal_strlit("eject");
        reveal_strlit("ethos");
        reveal_strlit("feral");
        reveal_strlit("flesh");
        reveal_strlit("foyer");
        reveal_strlit("gaunt");
        reveal_strlit("going");
        reveal_strlit("grope");
        reveal_strlit("hater");
        reveal_strlit("howdy");
        reveal_strlit("inter");
        reveal_strlit("kneed");
        reveal_strlit("lefty");
        reveal_strlit("lowly");
        reveal_strlit("march");
        reveal_strlit("miser");
        assert(words.deep_view().subrange(0, old(words).deep_view().len() as int)
            =~= old(words).deep_view());
        assert(words.deep_view().subrange(
            old(words).deep_view().len() as int,
            words.deep_view().len() as int,
        ) =~= answers_view_00());
    }
}

spec fn answers_view_01() -> Seq<Seq<char>> {
    seq!["music"@, "nymph"@, "oxide"@, "pesto"@, "plume"@, "prose"@, "quill"@, "recur"@, "rival"@, "salvo"@, "scrub"@, "sheik"@, "sixth"@, "small"@, "sooth"@, "spool"@, "steer"@, "sugar"@, "tacit"@, "these"@, "topic"@, "truer"@, "unity"@, "villa"@, "weird"@, "woody"@]
}

#[verifier::rlimit(100)]
fn push_answers_01(words: &mut Vec<&'static str>)
    ensures
        final(words).deep_view().len() == old(words).deep_view().len() + 26,
        final(words).deep_view().subrange(0, old(words).deep_view().len() as int)
            == old(words).deep_view(),
        final(words).deep_view().subrange(
            old(words).deep_view().len() as int,
            final(words).deep_view().len() as int,
        ) == answers_view_01(),
        forall|j: int|
            old(words).deep_view().len() <= j < final(words).deep_view().len()
                ==> (#[trigger] final(words).deep_view()[j]).len() == 5,
{
    words.push("music");
    words.push("nymph");
    words.push("oxide");
    words.push("pesto");
    words.push("plume");
    words.push("prose");
    words.push("quill");
    words.push("recur");
    words.push("rival");
    words.push("salvo");
    words.push("scrub");
    words.push("sheik");
    words.push("sixth");
    words.push("small");
    words.push("sooth");
    words.push("spool");
    words.push("steer");
    words.push("sugar");
    words.push("tacit");
    words.push("these");
    words.push("topic");
    words.push("truer");
    words.push("unity");
    words.push("villa");
    words.push("weird");
    words.push("woody");
    proof {
        reveal_strlit("music");
        reveal_strlit("nymph");
        reveal_strlit("oxide");
        reveal_strlit("pesto");
        reveal_strlit("plume");
        reveal_strlit("prose");
        reveal_strlit("quill");
        reveal_strlit("recur");
        reveal_strlit("rival");
        reveal_strlit("salvo");
        reveal_strlit("scrub");
        reveal_strlit("sheik");
        reveal_strlit("sixth");
        reveal_strlit("small");
        reveal_strlit("sooth");
        reveal_strlit("spool");
        reveal_strlit("steer");
        reveal_strlit("sugar");
        reveal_strlit("tacit");
        reveal_strlit("these");
        reveal_strlit("topic");
        reveal_strlit("truer");
        reveal_strlit("unity");
        reveal_strlit("villa");
        reveal_strlit("weird");
        reveal_strlit("woody");
        assert(words.deep_view().subrange(0, old(words).deep_view().len() as int)
            =~= old(words).deep_view());
        assert(words.deep_view().subrange(
            old(words).deep_view().len() as int,
            words.deep_view().len() as int,
        ) =~= answers_view_01());
    }
}

/// The built-in grading answer key, as specification-level data: what
/// `crate::corpus::get_grading_answer_key` returns is exactly this
/// sequence.
pub closed spec fn builtin_answer_key_view() -> Seq<Seq<char>> {
    Seq::<Seq<char>>::empty()
        + answers_view_00()
        + answers_view_01()
}

/// The raw built-in grading answer key.
#[verifier::rlimit(100)]
pub(crate) fn raw_answer_key_list() -> (words: Vec<&'static str>)
    ensures
        words.deep_view() == builtin_answer_key_view(),
        words.deep_view().len() == 52,
        forall|j: int|
            0 <= j < words.deep_view().len()
                ==> (#[trigger] words.deep_view()[j]).len() == 5,
{
    let mut words: Vec<&'static str> = Vec::new();
    proof {
        assert(words.deep_view() =~= Seq::<Seq<char>>::empty());
    }
    let ghost pre_push_answers_00 = words.deep_view();
    push_answers_00(&mut words);
    proof {
        lemma_concat_from_subranges(pre_push_answers_00, words.deep_view(), answers_view_00());
        assert forall|j: int|
            0 <= j < words.deep_view().len() implies (#[trigger] words.deep_view()[j]).len()
            == 5 by {
            if j < pre_push_answers_00.len() {
                assert(words.deep_view()[j] == pre_push_answers_00[j]);
            }
        }
    }
    let ghost pre_push_answers_01 = words.deep_view();
    push_answers_01(&mut words);
    proof {
        lemma_concat_from_subranges(pre_push_answers_01, words.deep_view(), answers_view_01());
        assert forall|j: int|
            0 <= j < words.deep_view().len() implies (#[trigger] words.deep_view()[j]).len()
            == 5 by {
            if j < pre_push_answers_01.len() {
                assert(words.deep_view()[j] == pre_push_answers_01[j]);
            }
        }
    }
    proof {
        assert(words.deep_view() == builtin_answer_key_view());
    }
    words
}

} // verus!
