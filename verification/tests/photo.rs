use lineup::fetch::FetchError;
use lineup::fetch::FetchReply;
use lineup::handoff::Handoff;
use lineup::photo::Photo;
use lineup::picture::Picture;

fn flat(width: u32, height: u32, value: u8) -> Picture {
    Picture { width, height, pixels: vec![value; (4 * width * height) as usize] }
}

fn jpeg_of(width: u32, height: u32, rgb: [u8; 3]) -> Vec<u8> {
    let picture = image::RgbImage::from_pixel(width, height, image::Rgb(rgb));
    let mut out = std::io::Cursor::new(Vec::new());
    picture.write_to(&mut out, image::ImageFormat::Jpeg).unwrap();
    out.into_inner()
}

#[test]
fn new_photo_is_pending_and_names_its_source() {
    let (photo, job) = Photo::new(String::from("https://example.org/a.jpg"));
    assert!(photo.peek().is_none());
    assert_eq!(photo.failure(), None);
    assert_eq!(job.locator(), "https://example.org/a.jpg");
}

#[test]
fn pending_photo_shows_the_fallback_every_time() {
    let (mut photo, job) = Photo::new(String::from("a"));
    let fallback = flat(2, 2, 7);
    for _ in 0..10 {
        assert_eq!(photo.poll(&fallback), &fallback);
        assert!(photo.get().is_none());
        assert_eq!(photo.failure(), None);
    }
    drop(job);
}

#[test]
fn failed_fetch_shows_the_fallback_forever() {
    let (mut photo, job) = Photo::new(String::from("a"));
    assert_eq!(job.complete(FetchReply::Unreachable), Err(FetchError::Transport));
    let fallback = flat(1, 1, 9);
    for _ in 0..10 {
        assert_eq!(photo.poll(&fallback), &fallback);
    }
    assert_eq!(photo.failure(), Some(FetchError::Transport));
    assert!(photo.get().is_none());
}

#[test]
fn refused_fetch_records_the_status() {
    let (mut photo, job) = Photo::new(String::from("a"));
    let reply = FetchReply::Response { status: 503, body: vec![] };
    assert_eq!(job.complete(reply), Err(FetchError::Status(503)));
    assert!(photo.get().is_none());
    assert_eq!(photo.failure(), Some(FetchError::Status(503)));
}

#[test]
fn undecodable_fetch_records_the_cause() {
    let (mut photo, job) = Photo::new(String::from("a"));
    let reply = FetchReply::Response { status: 200, body: vec![1, 2, 3] };
    assert_eq!(job.complete(reply), Err(FetchError::Decode));
    assert!(photo.get().is_none());
    assert_eq!(photo.failure(), Some(FetchError::Decode));
}

#[test]
fn abandoned_fetch_settles_as_failed() {
    let (mut photo, job) = Photo::new(String::from("a"));
    drop(job);
    let fallback = flat(1, 1, 3);
    assert_eq!(photo.poll(&fallback), &fallback);
    assert_eq!(photo.failure(), Some(FetchError::Abandoned));
    assert_eq!(photo.poll(&fallback), &fallback);
    assert_eq!(photo.failure(), Some(FetchError::Abandoned));
}

#[test]
fn finished_fetch_shows_its_picture_from_then_on() {
    let (mut photo, job) = Photo::new(String::from("a"));
    let fallback = flat(1, 1, 0);
    assert_eq!(photo.poll(&fallback), &fallback);
    let reply = FetchReply::Response { status: 200, body: jpeg_of(4, 2, [250, 250, 250]) };
    assert_eq!(job.complete(reply), Ok(()));
    let first = photo.poll(&fallback).clone();
    assert_eq!(first.width, 4);
    assert_eq!(first.height, 2);
    assert_eq!(first.pixels.len(), 32);
    assert_ne!(first, fallback);
    let other = flat(3, 3, 1);
    for _ in 0..10 {
        assert_eq!(photo.poll(&other), &first);
        assert_eq!(photo.get(), Some(&first));
        assert_eq!(photo.peek(), Some(&first));
    }
    assert_eq!(photo.failure(), None);
}

#[test]
fn peek_does_not_look_at_the_channel() {
    let (mut photo, job) = Photo::new(String::from("a"));
    let reply = FetchReply::Response { status: 200, body: jpeg_of(1, 1, [0, 0, 0]) };
    assert_eq!(job.complete(reply), Ok(()));
    assert!(photo.peek().is_none());
    photo.refresh();
    assert!(photo.peek().is_some());
}

#[test]
fn absorb_waiting_leaves_a_pending_slot_pending() {
    let (mut photo, _job) = Photo::new(String::from("a"));
    photo.absorb(Handoff::Waiting);
    assert!(photo.peek().is_none());
    assert_eq!(photo.failure(), None);
}

#[test]
fn absorb_picture_makes_a_pending_slot_ready() {
    let (mut photo, _job) = Photo::new(String::from("a"));
    photo.absorb(Handoff::Arrived(Ok(flat(2, 1, 5))));
    assert_eq!(photo.peek(), Some(&flat(2, 1, 5)));
}

#[test]
fn absorb_failure_makes_a_pending_slot_failed() {
    let (mut photo, _job) = Photo::new(String::from("a"));
    photo.absorb(Handoff::Arrived(Err(FetchError::Status(418))));
    assert_eq!(photo.failure(), Some(FetchError::Status(418)));
    assert!(photo.peek().is_none());
}

#[test]
fn absorb_closed_makes_a_pending_slot_failed() {
    let (mut photo, _job) = Photo::new(String::from("a"));
    photo.absorb(Handoff::Closed);
    assert_eq!(photo.failure(), Some(FetchError::Abandoned));
}

#[test]
fn ready_slot_is_past_changing() {
    let (mut photo, _job) = Photo::new(String::from("a"));
    photo.absorb(Handoff::Arrived(Ok(flat(1, 1, 1))));
    photo.absorb(Handoff::Arrived(Ok(flat(1, 1, 2))));
    photo.absorb(Handoff::Arrived(Err(FetchError::Decode)));
    photo.absorb(Handoff::Closed);
    photo.absorb(Handoff::Waiting);
    assert_eq!(photo.peek(), Some(&flat(1, 1, 1)));
    assert_eq!(photo.failure(), None);
}

#[test]
fn failed_slot_is_past_changing() {
    let (mut photo, _job) = Photo::new(String::from("a"));
    photo.absorb(Handoff::Closed);
    photo.absorb(Handoff::Arrived(Ok(flat(1, 1, 2))));
    photo.absorb(Handoff::Arrived(Err(FetchError::Decode)));
    photo.absorb(Handoff::Waiting);
    assert!(photo.peek().is_none());
    assert_eq!(photo.failure(), Some(FetchError::Abandoned));
    let fallback = flat(1, 1, 8);
    assert_eq!(photo.poll(&fallback), &fallback);
}

#[test]
fn failed_slot_does_not_take_a_late_picture() {
    let (mut photo, job) = Photo::new(String::from("a"));
    photo.absorb(Handoff::Arrived(Err(FetchError::Transport)));
    let reply = FetchReply::Response { status: 200, body: jpeg_of(1, 1, [0, 0, 0]) };
    assert_eq!(job.complete(reply), Ok(()));
    let fallback = flat(1, 1, 8);
    assert_eq!(photo.poll(&fallback), &fallback);
    assert_eq!(photo.failure(), Some(FetchError::Transport));
}

#[test]
fn job_whose_photo_is_gone_still_completes() {
    let (photo, job) = Photo::new(String::from("a"));
    drop(photo);
    assert_eq!(job.complete(FetchReply::Unreachable), Err(FetchError::Transport));
}

#[test]
fn delivered_picture_comes_out_as_it_went_in() {
    let (mut photo, job) = Photo::new(String::from("a"));
    let picture = Picture { width: 2, height: 1, pixels: vec![1, 2, 3, 4, 5, 6, 7, 8] };
    assert_eq!(job.deliver(Ok(picture.clone())), Ok(()));
    let fallback = flat(1, 1, 0);
    assert_eq!(photo.poll(&fallback), &picture);
    assert_eq!(photo.get(), Some(&picture));
}

#[test]
fn delivered_failure_comes_out_as_it_went_in() {
    let (mut photo, job) = Photo::new(String::from("a"));
    assert_eq!(job.deliver(Err(FetchError::Status(404))), Err(FetchError::Status(404)));
    photo.refresh();
    assert_eq!(photo.failure(), Some(FetchError::Status(404)));
}

#[test]
fn delivery_to_a_photo_that_is_gone_still_gives_a_receipt() {
    let (photo, job) = Photo::new(String::from("a"));
    drop(photo);
    assert_eq!(job.deliver(Ok(flat(1, 1, 1))), Ok(()));
}
