use hn_api::decode::decode_item;
use hn_api::types::Item;

#[test]
fn test_story() {
    let json = r#"
    {
      "by" : "dhouston",
      "descendants" : 71,
      "id" : 8863,
      "kids" : [ 9224, 8952, 8917, 8884, 8887, 8869, 8940, 8908, 8958, 9005, 8873, 9671, 9067, 9055, 8865, 8881, 8872, 8955, 10403, 8903, 8928, 9125, 8998, 8901, 8902, 8907, 8894, 8870, 8878, 8980, 8934, 8943, 8876 ],
      "score" : 104,
      "time" : 1175714200,
      "title" : "My YC app: Dropbox - Throw away your USB drive",
      "type" : "story",
      "url" : "http://www.getdropbox.com/u/2/screencast.html"
    }"#;
    let item: Item = decode_item(json).unwrap().unwrap();
    match item {
        Item::Story(story) => {
            assert_eq!(story.id, 8863);
            assert_eq!(story.by, "dhouston");
            assert_eq!(story.descendants, 71);
            assert_eq!(story.score, 104);
            assert_eq!(story.time, 1175714200);
            assert_eq!(story.title, "My YC app: Dropbox - Throw away your USB drive");
            assert_eq!(
                story.url.as_deref(),
                Some("http://www.getdropbox.com/u/2/screencast.html")
            );
            assert_eq!(story.text, None);
            let kids = story.kids.unwrap();
            assert_eq!(kids.len(), 33);
            assert_eq!(kids[0], 9224);
            assert_eq!(kids[32], 8876);
        },
        other => panic!("expected a story, got {:?}", other),
    }
}

#[test]
fn test_ask() {
    let json = r#"
    {
      "by" : "tel",
      "descendants" : 16,
      "id" : 121003,
      "kids" : [ 121016, 121109, 121168 ],
      "score" : 25,
      "text" : "<i>or</i> HN: the Next Iteration<p>I get the impression that with Arc being released a lot of people who never had time for HN before are suddenly dropping in more often. (PG: what are the numbers on this? I'm envisioning a spike.)<p>Not to say that isn't great, but I'm wary of Diggification. Between links comparing programming to sex and a flurry of gratuitous, ostentatious  adjectives in the headlines it's a bit concerning.<p>80% of the stuff that makes the front page is still pretty awesome, but what's in place to keep the signal/noise ratio high? Does the HN model still work as the community scales? What's in store for (++ HN)?",
      "time" : 1203647620,
      "title" : "Ask HN: The Arc Effect",
      "type" : "story"
    }"#;
    let item: Item = decode_item(json).unwrap().unwrap();
    match item {
        Item::Story(story) => {
            assert_eq!(story.id, 121003);
            assert_eq!(story.by, "tel");
            assert_eq!(story.kids.as_deref(), Some(&[121016, 121109, 121168][..]));
            assert_eq!(story.url, None);
            assert!(story.text.unwrap().starts_with("<i>or</i> HN"));
        },
        other => panic!("expected a story, got {:?}", other),
    }
}

#[test]
fn test_comment() {
    let json = r#"
    {
      "by" : "norvig",
      "id" : 2921983,
      "kids" : [ 2922097, 2922429, 2924562, 2922709, 2922573, 2922140, 2922141 ],
      "parent" : 2921506,
      "text" : "Aw shucks, guys ... you make me blush with your compliments.<p>Tell you what, Ill make a deal: I'll keep writing if you keep reading. K?",
      "time" : 1314211127,
      "type" : "comment"
    }"#;
    let item: Item = decode_item(json).unwrap().unwrap();
    match item {
        Item::Comment(comment) => {
            assert_eq!(comment.id, 2921983);
            assert_eq!(comment.by, "norvig");
            assert_eq!(comment.parent, 2921506);
            assert_eq!(comment.time, 1314211127);
            assert!(comment.text.contains("Ill make a deal"));
        },
        other => panic!("expected a comment, got {:?}", other),
    }
}

#[test]
fn test_job() {
    let json = r#"
    {
      "by" : "justin",
      "id" : 192327,
      "score" : 6,
      "text" : "Justin.tv is the biggest live video site online. We serve hundreds of thousands of video streams a day, and have supported up to 50k live concurrent viewers. Our site is growing every week, and we just added a 10 gbps line to our colo. Our unique visitors are up 900% since January.<p>There are a lot of pieces that fit together to make Justin.tv work: our video cluster, IRC server, our web app, and our monitoring and search services, to name a few. A lot of our website is dependent on Flash, and we're looking for talented Flash Engineers who know AS2 and AS3 very well who want to be leaders in the development of our Flash.<p>Responsibilities<p><pre><code>    * Contribute to product design and implementation discussions\n    * Implement projects from the idea phase to production\n    * Test and iterate code before and after production release \n</code></pre>\nQualifications<p><pre><code>    * You should know AS2, AS3, and maybe a little be of Flex.\n    * Experience building web applications.\n    * A strong desire to work on website with passionate users and ideas for how to improve it.\n    * Experience hacking video streams, python, Twisted or rails all a plus.\n</code></pre>\nWhile we're growing rapidly, Justin.tv is still a small, technology focused company, built by hackers for hackers. Seven of our ten person team are engineers or designers. We believe in rapid development, and push out new code releases every week. We're based in a beautiful office in the SOMA district of SF, one block from the caltrain station. If you want a fun job hacking on code that will touch a lot of people, JTV is for you.<p>Note: You must be physically present in SF to work for JTV. Completing the technical problem at <a href=\"http://www.justin.tv/problems/bml\" rel=\"nofollow\">http://www.justin.tv/problems/bml</a> will go a long way with us. Cheers!",
      "time" : 1210981217,
      "title" : "Justin.tv is looking for a Lead Flash Engineer!",
      "type" : "job",
      "url" : ""
    }"#;
    let item: Item = decode_item(json).unwrap().unwrap();
    match item {
        Item::Job(job) => {
            assert_eq!(job.id, 192327);
            assert_eq!(job.score, 6);
            assert_eq!(job.time, 1210981217);
            assert_eq!(job.title, "Justin.tv is looking for a Lead Flash Engineer!");
            assert_eq!(job.url.as_deref(), Some(""));
            let text = job.text.unwrap();
            assert!(text.contains("href=\"http://www.justin.tv/problems/bml\""));
            assert!(text.contains("production release \n</code></pre>"));
        },
        other => panic!("expected a job, got {:?}", other),
    }
}

#[test]
fn test_poll() {
    let json = r#"
    {
      "by" : "pg",
      "descendants" : 54,
      "id" : 126809,
      "kids" : [ 126822, 126823, 126917, 126993, 126824, 126934, 127411, 126888, 127681, 126818, 126816, 126854, 127095, 126861, 127313, 127299, 126859, 126852, 126882, 126832, 127072, 127217, 126889, 126875, 127535 ],
      "parts" : [ 126810, 126811, 126812 ],
      "score" : 47,
      "time" : 1204403652,
      "title" : "Poll: What would happen if News.YC had explicit support for polls?",
      "type" : "poll"
    }"#;
    let item: Item = decode_item(json).unwrap().unwrap();
    match item {
        Item::Poll(poll) => {
            assert_eq!(poll.id, 126809);
            assert_eq!(poll.by, "pg");
            assert_eq!(poll.descendants, 54);
            assert_eq!(poll.parts.as_deref(), Some(&[126810, 126811, 126812][..]));
            assert_eq!(poll.score, 47);
            assert_eq!(poll.text, None);
        },
        other => panic!("expected a poll, got {:?}", other),
    }
}

#[test]
fn test_pollopt() {
    let json = r#"
    {
      "by" : "pg",
      "id" : 160705,
      "poll" : 160704,
      "score" : 335,
      "text" : "Yes, ban them; I'm tired of seeing Valleywag stories on News.YC.",
      "time" : 1207886576,
      "type" : "pollopt"
    }"#;
    let item: Item = decode_item(json).unwrap().unwrap();
    match item {
        Item::Pollopt(pollopt) => {
            assert_eq!(pollopt.id, 160705);
            assert_eq!(pollopt.by, "pg");
            assert_eq!(pollopt.poll, 160704);
            assert_eq!(pollopt.score, 335);
            assert_eq!(
                pollopt.text.as_deref(),
                Some("Yes, ban them; I'm tired of seeing Valleywag stories on News.YC.")
            );
        },
        other => panic!("expected a pollopt, got {:?}", other),
    }
}
