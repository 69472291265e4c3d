use libaflmm::mutators::token_mutations::{autodict_is_well_formed, TokenInsert, TokenReplace, Tokens};
use libaflmm::mutators::MutationResult;
use libaflmm::corpus::schedulers::{RandScheduler, Scheduler};
use libaflmm::corpus::TestcaseId;
use libaflmm::rands::{Rand, XorShiftRand};

#[test]
fn tokens_are_kept_once_in_order() {
    let mut t = Tokens::new();
    assert!(t.is_empty());
    assert!(t.add_token(&b"abc".to_vec()));
    assert!(t.add_token(&b"de".to_vec()));
    assert!(!t.add_token(&b"abc".to_vec()));
    assert_eq!(t.len(), 2);
    assert_eq!(t.tokens(), &[b"abc".to_vec(), b"de".to_vec()]);
    t.add_tokens(&vec![b"de".to_vec(), b"f".to_vec()]);
    assert_eq!(t.tokens(), &[b"abc".to_vec(), b"de".to_vec(), b"f".to_vec()]);
}

#[test]
fn autodict_sections_are_parsed() {
    let section = [2u8, b'h', b'i', 0, 3, b'a', b'b', b'c'];
    assert!(autodict_is_well_formed(&section, 8));
    assert!(!autodict_is_well_formed(&section, 7));
    let mut t = Tokens::new();
    t.parse_autodict(&section, 8);
    assert_eq!(t.tokens(), &[b"hi".to_vec(), b"abc".to_vec()]);
}

#[test]
fn token_insert_at_an_offset() {
    let mut input = b"hello".to_vec();
    let r = TokenInsert::insert_token_at(&mut input, &b"XY".to_vec(), 2, 100);
    assert_eq!(r, MutationResult::Mutated);
    assert_eq!(input, b"heXYllo".to_vec());
}

#[test]
fn token_insert_is_cut_at_the_size_limit() {
    let mut input = b"hello".to_vec();
    let r = TokenInsert::insert_token_at(&mut input, &b"XYZ".to_vec(), 5, 6);
    assert_eq!(r, MutationResult::Mutated);
    assert_eq!(input, b"helloX".to_vec());
    let mut full = b"hello".to_vec();
    assert_eq!(TokenInsert::insert_token_at(&mut full, &b"XYZ".to_vec(), 0, 5), MutationResult::Skipped);
    assert_eq!(full, b"hello".to_vec());
}

#[test]
fn token_replace_overwrites_within_the_input() {
    let mut input = b"hello".to_vec();
    let r = TokenReplace::replace_token_at(&mut input, &b"XYZ".to_vec(), 3);
    assert_eq!(r, MutationResult::Mutated);
    assert_eq!(input, b"helXY".to_vec());
}

#[test]
fn token_mutations_skip_without_tokens() {
    let mut rand = XorShiftRand::with_seed(7);
    let tokens = Tokens::new();
    let mut input = b"abc".to_vec();
    assert_eq!(TokenInsert::new().mutate(&mut input, &mut rand, &tokens, 100), MutationResult::Skipped);
    assert_eq!(TokenReplace::new().mutate(&mut input, &mut rand, &tokens), MutationResult::Skipped);
    assert_eq!(input, b"abc".to_vec());
}

#[test]
fn token_replace_keeps_the_length() {
    let mut rand = XorShiftRand::with_seed(3);
    let mut tokens = Tokens::new();
    tokens.add_token(&b"ZZZZZZZZ".to_vec());
    let mut input = b"abcd".to_vec();
    assert_eq!(TokenReplace::new().mutate(&mut input, &mut rand, &tokens), MutationResult::Mutated);
    assert_eq!(input.len(), 4);
    assert!(input.contains(&b'Z'));
}

#[test]
fn token_insert_picks_the_token_then_the_position() {
    let mut tokens = Tokens::new();
    tokens.add_token(&b"AA".to_vec());
    tokens.add_token(&b"BBB".to_vec());
    tokens.add_token(&b"C".to_vec());
    let mut rand = XorShiftRand::with_seed(11);
    let mut replay = rand;
    let t = replay.below(3);
    let off = replay.below(6);
    let mut expected = b"hello".to_vec();
    TokenInsert::insert_token_at(&mut expected, &tokens.tokens()[t], off, 100);
    let mut input = b"hello".to_vec();
    assert_eq!(TokenInsert::new().mutate(&mut input, &mut rand, &tokens, 100), MutationResult::Mutated);
    assert_eq!(input, expected);
    assert_eq!(rand.next_u64(), replay.next_u64());
}

#[test]
fn token_replace_picks_the_position_then_the_token() {
    let mut tokens = Tokens::new();
    tokens.add_token(&b"XY".to_vec());
    tokens.add_token(&b"Q".to_vec());
    let mut rand = XorShiftRand::with_seed(5);
    let mut replay = rand;
    let off = replay.below(6);
    let t = replay.below(2);
    let mut expected = b"abcdef".to_vec();
    TokenReplace::replace_token_at(&mut expected, &tokens.tokens()[t], off);
    let mut input = b"abcdef".to_vec();
    assert_eq!(TokenReplace::new().mutate(&mut input, &mut rand, &tokens), MutationResult::Mutated);
    assert_eq!(input, expected);
}

#[test]
fn random_scheduler_follows_its_generator() {
    let mut sched = RandScheduler::new(XorShiftRand::with_seed(9));
    assert_eq!(sched.next().unwrap(), None);
    assert_eq!(sched.current(), None);
    for i in 0..5u64 {
        sched.on_add(TestcaseId(100 + i)).unwrap();
    }
    let mut replay = XorShiftRand::with_seed(9);
    for _ in 0..10 {
        let want = TestcaseId(100 + replay.below(5) as u64);
        assert_eq!(sched.next().unwrap(), Some(want));
        assert_eq!(sched.current(), Some(want));
    }
}
