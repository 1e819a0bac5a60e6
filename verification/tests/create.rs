use anchor_lang::prelude::ProgramError;
use anchor_lang::prelude::Pubkey;
use v0_malintzin::create_post;
use v0_malintzin::create_post_with_clock;
use v0_malintzin::CreateError;
use v0_malintzin::CreatePost;
use v0_malintzin::CustomError;
use v0_malintzin::Post;

fn identity(tag: u8) -> Pubkey {
    Pubkey::new_from_array([tag; 32])
}

fn empty_slot() -> Post {
    Post { author: Pubkey::new_from_array([0; 32]), content: String::new(), timestamp: 0, likes: 0 }
}

fn request(author: Pubkey) -> CreatePost {
    CreatePost { post: empty_slot(), author }
}

#[test]
fn create_sets_every_field() {
    let a = identity(1);
    let mut ctx = request(a);
    let result = create_post_with_clock(&mut ctx, String::from("hello"), Ok(1_700_000_000));
    assert_eq!(result, Ok(()));
    assert_eq!(ctx.post.author, a);
    assert_eq!(ctx.post.content, "hello");
    assert_eq!(ctx.post.timestamp, 1_700_000_000);
    assert_eq!(ctx.post.likes, 0);
    assert_eq!(ctx.author, a);
}

#[test]
fn create_overwrites_whatever_the_slot_held() {
    let a = identity(1);
    let mut ctx = CreatePost {
        post: Post { author: identity(9), content: String::from("stale"), timestamp: 5, likes: 77 },
        author: a,
    };
    let result = create_post_with_clock(&mut ctx, String::from("fresh"), Ok(-3));
    assert_eq!(result, Ok(()));
    assert_eq!(
        ctx.post,
        Post { author: a, content: String::from("fresh"), timestamp: -3, likes: 0 }
    );
}

#[test]
fn create_accepts_empty_content() {
    let mut ctx = request(identity(2));
    assert_eq!(create_post_with_clock(&mut ctx, String::new(), Ok(10)), Ok(()));
    assert_eq!(ctx.post.content, "");
    assert_eq!(ctx.post.timestamp, 10);
}

#[test]
fn create_accepts_content_of_exactly_the_limit() {
    let content = "x".repeat(1024);
    let mut ctx = request(identity(2));
    assert_eq!(create_post_with_clock(&mut ctx, content.clone(), Ok(10)), Ok(()));
    assert_eq!(ctx.post.content, content);
    assert_eq!(ctx.post.content.len(), 1024);
}

#[test]
fn create_refuses_content_one_byte_over_the_limit() {
    let mut ctx = request(identity(2));
    let before = ctx.clone();
    let result = create_post_with_clock(&mut ctx, "x".repeat(1025), Ok(10));
    assert_eq!(result, Err(CreateError::Rejected(CustomError::ContentTooLarge)));
    assert_eq!(ctx, before);
}

#[test]
fn create_counts_bytes_not_characters() {
    // 'é' takes two bytes: 512 of them are 1024 bytes, 513 are 1026.
    let fits = "é".repeat(512);
    let mut ctx = request(identity(3));
    assert_eq!(create_post_with_clock(&mut ctx, fits.clone(), Ok(1)), Ok(()));
    assert_eq!(ctx.post.content, fits);

    let too_long = "é".repeat(513);
    assert_eq!(too_long.chars().count(), 513);
    let mut ctx = request(identity(3));
    let before = ctx.clone();
    assert_eq!(
        create_post_with_clock(&mut ctx, too_long, Ok(1)),
        Err(CreateError::Rejected(CustomError::ContentTooLarge))
    );
    assert_eq!(ctx, before);
}

#[test]
fn create_passes_on_a_failed_clock() {
    let mut ctx = request(identity(4));
    let before = ctx.clone();
    let result =
        create_post_with_clock(&mut ctx, String::from("hello"), Err(ProgramError::UnsupportedSysvar));
    assert_eq!(result, Err(CreateError::Ledger(ProgramError::UnsupportedSysvar)));
    assert_eq!(ctx, before);

    let result = create_post_with_clock(&mut ctx, String::from("hello"), Err(ProgramError::Custom(7)));
    assert_eq!(result, Err(CreateError::Ledger(ProgramError::Custom(7))));
    assert_eq!(ctx, before);
}

#[test]
fn create_refuses_long_content_whatever_the_clock_says() {
    let mut ctx = request(identity(4));
    let before = ctx.clone();
    let result =
        create_post_with_clock(&mut ctx, "x".repeat(2000), Err(ProgramError::UnsupportedSysvar));
    assert_eq!(result, Err(CreateError::Rejected(CustomError::ContentTooLarge)));
    assert_eq!(ctx, before);
}

#[test]
fn create_post_refuses_long_content_without_a_ledger() {
    let mut ctx = request(identity(5));
    let before = ctx.clone();
    let result = create_post(&mut ctx, "x".repeat(1025));
    assert_eq!(result, Err(CreateError::Rejected(CustomError::ContentTooLarge)));
    assert_eq!(ctx, before);
}

#[test]
fn create_post_without_a_ledger_fails_and_changes_nothing() {
    // A test process is no ledger: there is no clock to read.
    let a = identity(6);
    let mut ctx = request(a);
    let before = ctx.clone();
    assert_eq!(
        create_post(&mut ctx, String::from("hello")),
        Err(CreateError::Ledger(ProgramError::UnsupportedSysvar))
    );
    assert_eq!(ctx, before);
}
