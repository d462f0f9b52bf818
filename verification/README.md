# handy

The verified core of a dictation application that lets its user keep talking:
a shortcut records a segment, the segment is transcribed in the background while
the next one is being recorded, and all segments are pasted in recording order
into the window that was focused when the session began. Sessions have numbers,
so that what a cancelled one still reports never reaches the next.

`src/` is a library in Verus. It decides; it performs nothing itself.

- `transcription_coordinator`: the mailbox that serialises everything that happens
- `pipeline`: the coordinator's state machine, from command to directive
- `actions`, `utils`, `effects`: what a directive does to the world, in order
- `segment_task`, `paste_queue`: the way of one segment from its samples to its
  paste, and the turn that segments take
- `post_process`, `json`, `settings`: whether and how a language model is asked,
  and what is made of its answer
- `chinese`: conversion between variants of Chinese
- `window_focus`: reading off the focused window and bringing it back
- `text`, `decimal`: operations on texts and numbers
- `pipeline_laws`, `segment_laws`, `session_laws`, `window_focus_laws`,
  `text_laws`: what holds over whole runs, proved from the contracts

`app/` runs the library: threads and locks, the platform's windows, and the
services of the application, which stand behind the trait `Host`.

What is believed and not proved: the conversions of `ferrous-opencc`, the parsing
of `serde_json`, and a few functions of the standard library on texts. Each of
them is declared beside the code that calls it.
