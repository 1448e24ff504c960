# urtask

The verified core of UrTask, a bot that reads a user's Trello board and
reports the state of its "ToDo", "Doing" and "Done" lists over Telegram.

* `src/` is the library, checked by Verus: parsing of `/setconfig`
  arguments, classification of a board's lists and cards, the wording of every
  message, the reminders, the schedule, and the step-by-step decisions of the
  command handler (`handlers::answer`) and of the daily report
  (`utils::report`), each written as a function from a state and the outside
  world's answer to the next state and request.
* `app/` is the program around it: environment, MongoDB, the Trello and
  Telegram HTTP APIs, teloxide's dispatcher and tokio-cron-scheduler. It
  performs the library's requests and hands back the answers.
* `tests/` runs the library on concrete values.
