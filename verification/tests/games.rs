use guessing_game::{
    banner, guess, handle_input, new_secret, play, prompt, GameResult, Message, Round, SECRET_MAX,
    SECRET_MIN,
};

fn lines(texts: &[&str]) -> Vec<String> {
    let mut lines = Vec::new();
    for text in texts {
        lines.push(String::from(*text));
    }
    lines
}

fn texts_of(rounds: &[Round]) -> Vec<&'static str> {
    let mut texts = Vec::new();
    for round in rounds {
        if let Some(message) = round.message {
            texts.push(message.text());
        }
    }
    texts
}

#[test]
fn three_rounds_to_the_secret() {
    let rounds = play(&lines(&["30\n", "70\n", "50\n"]), 50);
    assert_eq!(rounds.len(), 3);
    assert_eq!(
        rounds,
        vec![
            Round { result: GameResult::LOSE, message: Some(Message::Less) },
            Round { result: GameResult::LOSE, message: Some(Message::Greater) },
            Round { result: GameResult::WIN, message: Some(Message::Guessed) },
        ]
    );
    assert_eq!(
        texts_of(&rounds),
        vec![
            "Your guess is less than secret number",
            "Your guess is greater than secret number",
            "You guessed it!",
        ]
    );
    assert!(rounds[2].result.ends_game());
}

#[test]
fn quit_on_the_first_round() {
    let rounds = play(&lines(&["quit\n"]), 50);
    assert_eq!(rounds, vec![Round { result: GameResult::QUIT, message: None }]);
    assert!(rounds[0].result.ends_game());
    assert!(texts_of(&rounds).is_empty());
}

#[test]
fn quit_leaves_the_later_lines_unplayed() {
    let rounds = play(&lines(&["quit\n", "50\n", "q\n"]), 50);
    assert_eq!(rounds, vec![Round { result: GameResult::QUIT, message: None }]);
    let rounds = play(&lines(&["q\n", "50\n"]), 50);
    assert_eq!(rounds, vec![Round { result: GameResult::QUIT, message: None }]);
}

#[test]
fn text_that_is_no_number_does_not_end_the_game() {
    let round = handle_input(String::from("abc\n"), 50);
    assert_eq!(round.message.unwrap().text(), "Please type number");
    assert!(!round.result.ends_game());

    let rounds = play(&lines(&["abc\n", "50\n"]), 50);
    assert_eq!(
        rounds,
        vec![
            Round { result: GameResult::LOSE, message: Some(Message::NotANumber) },
            Round { result: GameResult::WIN, message: Some(Message::Guessed) },
        ]
    );
    assert_eq!(texts_of(&rounds), vec!["Please type number", "You guessed it!"]);
}

#[test]
fn a_win_leaves_the_later_lines_unplayed() {
    let rounds = play(&lines(&["50\n", "30\n", "quit\n"]), 50);
    assert_eq!(rounds, vec![Round { result: GameResult::WIN, message: Some(Message::Guessed) }]);
}

#[test]
fn lines_that_run_out_leave_the_game_open() {
    let rounds = play(&lines(&["1\n", "abc\n", "99\n"]), 50);
    assert_eq!(rounds.len(), 3);
    for round in &rounds {
        assert_eq!(round.result, GameResult::LOSE);
        assert!(!round.result.ends_game());
    }
    assert_eq!(
        texts_of(&rounds),
        vec![
            "Your guess is less than secret number",
            "Please type number",
            "Your guess is greater than secret number",
        ]
    );
}

#[test]
fn no_lines_no_rounds() {
    assert!(play(&lines(&[]), 50).is_empty());
}

#[test]
fn an_empty_line_loses_and_the_game_goes_on() {
    let rounds = play(&lines(&["", "\n", "50\n"]), 50);
    assert_eq!(rounds.len(), 3);
    assert_eq!(rounds[0].message, Some(Message::NotANumber));
    assert_eq!(rounds[1].message, Some(Message::NotANumber));
    assert_eq!(rounds[2].result, GameResult::WIN);
}

#[test]
fn play_gives_each_line_the_round_of_handle_input() {
    let all = lines(&["10\n", "x\n", " 60 \n", "quit", "49\n", "51\n", "50\n", "q\n"]);
    let rounds = play(&all, 50);
    assert_eq!(rounds.len(), 7);
    for (at, round) in rounds.iter().enumerate() {
        assert_eq!(*round, handle_input(all[at].clone(), 50));
        assert_eq!(round.result.ends_game(), at == 6);
    }
}

#[test]
fn bisecting_finds_every_secret() {
    for secret in SECRET_MIN..=SECRET_MAX {
        let mut low = SECRET_MIN;
        let mut high = SECRET_MAX;
        let mut asked = Vec::new();
        loop {
            let middle = low + (high - low) / 2;
            asked.push(format!("{}\n", middle));
            if middle == secret {
                break;
            } else if middle < secret {
                low = middle + 1;
            } else {
                high = middle - 1;
            }
        }
        assert!(asked.len() <= 7);
        let rounds = play(&asked, secret);
        assert_eq!(rounds.len(), asked.len());
        assert_eq!(rounds[rounds.len() - 1].result, GameResult::WIN);
        for round in &rounds[..rounds.len() - 1] {
            assert_eq!(round.result, GameResult::LOSE);
        }
    }
}

#[test]
fn secret_range() {
    assert_eq!(SECRET_MIN, 1);
    assert_eq!(SECRET_MAX, 100);
}

#[test]
fn the_secret_lies_in_its_range() {
    for _ in 0..2000 {
        let secret = new_secret();
        assert!(SECRET_MIN <= secret && secret <= SECRET_MAX, "secret {}", secret);
    }
}

#[test]
fn the_secret_is_not_always_the_same() {
    let first = new_secret();
    let mut other = false;
    let mut above_min = false;
    let mut below_max = false;
    for _ in 0..2000 {
        let secret = new_secret();
        other = other || secret != first;
        above_min = above_min || secret != SECRET_MIN;
        below_max = below_max || secret != SECRET_MAX;
    }
    assert!(other);
    assert!(above_min);
    assert!(below_max);
}

#[test]
fn guessing_the_drawn_secret_wins() {
    for _ in 0..200 {
        let secret = new_secret();
        assert_eq!(
            guess(secret, secret),
            Round { result: GameResult::WIN, message: Some(Message::Guessed) }
        );
        let typed = format!("{}\n", secret);
        assert_eq!(handle_input(typed, secret).result, GameResult::WIN);
    }
}

#[test]
fn guessing_any_secret_of_the_range_wins() {
    for secret in SECRET_MIN..=SECRET_MAX {
        let round = guess(secret, secret);
        assert_eq!(round.result, GameResult::WIN);
        assert_eq!(round.message.unwrap().text(), "You guessed it!");
    }
}

#[test]
fn banner_and_prompt() {
    assert_eq!(banner(), "Guess the number!");
    assert_eq!(prompt(), ">> ");
}
